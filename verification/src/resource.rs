//! The resource that the service answers with, and the dump that shows all of
//! it. The dump is laid out as a record: one line for each field, a list on
//! lines of its own, and what is nested four spaces further in.

use crate::text::{
    concat, contains, debug_form, indent, indented, lemma_concat_contains, lemma_contains_later,
    lemma_contains_longer, quote, texts,
};
use vstd::prelude::*;

verus! {

/// The type `Value` of the crate `serde_json`: any JSON value. It is carried
/// along as it came; nothing here looks inside one.
#[verifier::external_type_specification]
#[verifier::external_body]
pub struct ExValue(serde_json::Value);

/// What one level of nesting adds to the margin.
pub const INDENT: &'static str = "    ";

/// The text that `serde_json` shows a JSON value as: its `Debug` form with
/// one member or element to a line. It depends on what the value holds and
/// on nothing else.
pub uninterp spec fn json_form(value: serde_json::Value) -> Seq<char>;

/// The `Debug` formatting that the crate `serde_json` gives its `Value`, asked
/// for in the format `{:#?}`. Trusted: the result depends on the value alone,
/// and is the text that `json_form` names.
#[verifier::external_body]
fn json_dump(value: &serde_json::Value) -> (r: String)
    ensures
        r@ == json_form(*value),
{
    format!("{:#?}", value)
}

/// One association of a short link with a mobile application.
#[derive(Debug, PartialEq, Eq)]
pub struct DeeplinkRecord {
    pub guid: String,
    pub bitlink: String,
    pub app_uri_path: String,
    pub install_url: String,
    pub app_guid: String,
    pub os: String,
    pub install_type: String,
    pub created: String,
    pub modified: String,
    pub brand_guid: String,
}

/// A short link as the service describes it. `references` is whatever JSON
/// value the service sent under that name.
#[derive(Debug, PartialEq, Eq)]
pub struct BitlinkResource {
    pub references: serde_json::Value,
    pub link: String,
    pub id: String,
    pub long_url: String,
    pub archived: bool,
    pub created_at: String,
    pub custom_bitlinks: Vec<String>,
    pub tags: Vec<String>,
    pub deeplinks: Vec<DeeplinkRecord>,
}

/// A resource with each of its values in the form in which the dump shows
/// it: a text in quotes, `references` as a JSON value is shown.
pub struct ResourceForms {
    pub references: String,
    pub link: String,
    pub id: String,
    pub long_url: String,
    pub archived: bool,
    pub created_at: String,
    pub custom_bitlinks: Vec<String>,
    pub tags: Vec<String>,
    pub deeplinks: Vec<DeeplinkRecord>,
}

/// The texts of a `DeeplinkRecord`.
pub struct RecordText {
    pub guid: Seq<char>,
    pub bitlink: Seq<char>,
    pub app_uri_path: Seq<char>,
    pub install_url: Seq<char>,
    pub app_guid: Seq<char>,
    pub os: Seq<char>,
    pub install_type: Seq<char>,
    pub created: Seq<char>,
    pub modified: Seq<char>,
    pub brand_guid: Seq<char>,
}

/// The texts of a `ResourceForms`.
pub struct ResourceText {
    pub references: Seq<char>,
    pub link: Seq<char>,
    pub id: Seq<char>,
    pub long_url: Seq<char>,
    pub archived: bool,
    pub created_at: Seq<char>,
    pub custom_bitlinks: Seq<Seq<char>>,
    pub tags: Seq<Seq<char>>,
    pub deeplinks: Seq<RecordText>,
}

impl View for DeeplinkRecord {
    type V = RecordText;

    open spec fn view(&self) -> RecordText {
        RecordText {
            guid: self.guid@,
            bitlink: self.bitlink@,
            app_uri_path: self.app_uri_path@,
            install_url: self.install_url@,
            app_guid: self.app_guid@,
            os: self.os@,
            install_type: self.install_type@,
            created: self.created@,
            modified: self.modified@,
            brand_guid: self.brand_guid@,
        }
    }
}

/// The texts of the records of a vector, in order.
pub open spec fn record_texts(records: Seq<DeeplinkRecord>) -> Seq<RecordText> {
    Seq::new(records.len(), |i: int| records[i]@)
}

impl View for ResourceForms {
    type V = ResourceText;

    open spec fn view(&self) -> ResourceText {
        ResourceText {
            references: self.references@,
            link: self.link@,
            id: self.id@,
            long_url: self.long_url@,
            archived: self.archived,
            created_at: self.created_at@,
            custom_bitlinks: texts(self.custom_bitlinks@),
            tags: texts(self.tags@),
            deeplinks: record_texts(self.deeplinks@),
        }
    }
}

/// Each text in quotes.
pub open spec fn quoted_all(items: Seq<Seq<char>>) -> Seq<Seq<char>> {
    Seq::new(items.len(), |i: int| debug_form(items[i]))
}

/// The record with each of its texts in quotes.
pub open spec fn quoted_record(record: RecordText) -> RecordText {
    RecordText {
        guid: debug_form(record.guid),
        bitlink: debug_form(record.bitlink),
        app_uri_path: debug_form(record.app_uri_path),
        install_url: debug_form(record.install_url),
        app_guid: debug_form(record.app_guid),
        os: debug_form(record.os),
        install_type: debug_form(record.install_type),
        created: debug_form(record.created),
        modified: debug_form(record.modified),
        brand_guid: debug_form(record.brand_guid),
    }
}

/// Each record with its texts in quotes.
pub open spec fn quoted_records(records: Seq<RecordText>) -> Seq<RecordText> {
    Seq::new(records.len(), |i: int| quoted_record(records[i]))
}

/// The forms in which the dump shows the values of a resource.
pub open spec fn forms_of(resource: BitlinkResource) -> ResourceText {
    ResourceText {
        references: json_form(resource.references),
        link: debug_form(resource.link@),
        id: debug_form(resource.id@),
        long_url: debug_form(resource.long_url@),
        archived: resource.archived,
        created_at: debug_form(resource.created_at@),
        custom_bitlinks: quoted_all(texts(resource.custom_bitlinks@)),
        tags: quoted_all(texts(resource.tags@)),
        deeplinks: quoted_records(record_texts(resource.deeplinks@)),
    }
}

/// The line of a field: the margin, the field's name, a colon, the value as
/// it is shown, and a comma.
pub open spec fn field_line(margin: Seq<char>, name: Seq<char>, value: Seq<char>) -> Seq<char> {
    margin + name + ": "@ + value + ",\n"@
}

/// The lines of the first `n` items of a list, each behind the margin and
/// followed by a comma.
pub open spec fn item_lines(items: Seq<Seq<char>>, n: nat, margin: Seq<char>) -> Seq<char>
    decreases n,
{
    if n == 0 || n > items.len() {
        Seq::<char>::empty()
    } else {
        item_lines(items, (n - 1) as nat, margin) + margin + items[n - 1] + ",\n"@
    }
}

/// A list as it is shown: `[]` if it is empty, else each item on a line of
/// its own, one level further in than `margin`, between brackets.
pub open spec fn list_layout(items: Seq<Seq<char>>, margin: Seq<char>) -> Seq<char> {
    if items.len() == 0 {
        "[]"@
    } else {
        "[\n"@ + item_lines(items, items.len(), margin + INDENT@) + margin + "]"@
    }
}

/// A truth value as it is shown.
pub open spec fn bool_text(b: bool) -> Seq<char> {
    if b {
        "true"@
    } else {
        "false"@
    }
}

/// The lines of the ten fields of a record, in their order, each behind
/// `margin`. The texts are shown as they are given.
pub open spec fn record_lines(record: RecordText, margin: Seq<char>) -> Seq<Seq<char>> {
    seq![
        field_line(margin, "guid"@, record.guid),
        field_line(margin, "bitlink"@, record.bitlink),
        field_line(margin, "app_uri_path"@, record.app_uri_path),
        field_line(margin, "install_url"@, record.install_url),
        field_line(margin, "app_guid"@, record.app_guid),
        field_line(margin, "os"@, record.os),
        field_line(margin, "install_type"@, record.install_type),
        field_line(margin, "created"@, record.created),
        field_line(margin, "modified"@, record.modified),
        field_line(margin, "brand_guid"@, record.brand_guid),
    ]
}

/// A record as it is shown, where the line that it starts on has the margin
/// `margin`: the record's name, the lines of its fields one level further
/// in, and the closing brace behind the margin.
pub open spec fn record_layout(record: RecordText, margin: Seq<char>) -> Seq<char> {
    "Deeplink {\n"@ + concat(record_lines(record, margin + INDENT@)) + margin + "}"@
}

/// Each record as it is shown.
pub open spec fn record_layouts(records: Seq<RecordText>, margin: Seq<char>) -> Seq<Seq<char>> {
    Seq::new(records.len(), |i: int| record_layout(records[i], margin))
}

/// The line of the field `references`: the value's text, with every line of
/// it but the first one level further in.
pub open spec fn references_line(forms: ResourceText) -> Seq<char> {
    field_line(INDENT@, "references"@, indented(forms.references, INDENT@))
}

/// The line of the field `deeplinks`: the list of the records.
pub open spec fn deeplinks_line(forms: ResourceText) -> Seq<char> {
    field_line(
        INDENT@,
        "deeplinks"@,
        list_layout(record_layouts(forms.deeplinks, INDENT@ + INDENT@), INDENT@),
    )
}

/// The lines of the nine fields of a resource, in their order.
pub open spec fn resource_lines(forms: ResourceText) -> Seq<Seq<char>> {
    seq![
        references_line(forms),
        field_line(INDENT@, "link"@, forms.link),
        field_line(INDENT@, "id"@, forms.id),
        field_line(INDENT@, "long_url"@, forms.long_url),
        field_line(INDENT@, "archived"@, bool_text(forms.archived)),
        field_line(INDENT@, "created_at"@, forms.created_at),
        field_line(INDENT@, "custom_bitlinks"@, list_layout(forms.custom_bitlinks, INDENT@)),
        field_line(INDENT@, "tags"@, list_layout(forms.tags, INDENT@)),
        deeplinks_line(forms),
    ]
}

/// The dump of a resource whose values are given in the form in which they
/// are shown: the record's name, the lines of the nine fields, and the
/// closing brace.
pub open spec fn resource_layout(forms: ResourceText) -> Seq<char> {
    "BitlyResponse {\n"@ + concat(resource_lines(forms)) + "}"@
}

/// The dump of a resource.
pub open spec fn dump_text(resource: BitlinkResource) -> Seq<char> {
    resource_layout(forms_of(resource))
}

/// A record that is being written, field by field: the text so far, and the
/// lines that it is to hold in the end.
struct Fields {
    text: String,
    head: Ghost<Seq<char>>,
    lines: Ghost<Seq<Seq<char>>>,
    written: Ghost<int>,
}

impl Fields {
    /// Whether the text is the head and the first `written` lines.
    spec fn in_step(&self) -> bool {
        &&& 0 <= self.written@ <= self.lines@.len()
        &&& self.text@ == self.head@ + concat(self.lines@.take(self.written@))
    }

    fn begin(head: &str, Ghost(lines): Ghost<Seq<Seq<char>>>) -> (fields: Fields)
        ensures
            fields.in_step(),
            fields.head@ == head@,
            fields.lines@ == lines,
            fields.written@ == 0,
    {
        let fields = Fields {
            text: head.to_owned(),
            head: Ghost(head@),
            lines: Ghost(lines),
            written: Ghost(0),
        };
        assert(fields.text@ =~= head@ + concat(lines.take(0)));
        fields
    }

    fn field(&mut self, margin: &str, name: &str, value: &str)
        requires
            old(self).in_step(),
            old(self).written@ < old(self).lines@.len(),
            old(self).lines@[old(self).written@] == field_line(margin@, name@, value@),
        ensures
            final(self).in_step(),
            final(self).head@ == old(self).head@,
            final(self).lines@ == old(self).lines@,
            final(self).written@ == old(self).written@ + 1,
    {
        let ghost k = self.written@;
        let ghost lines = self.lines@;
        self.text.append(margin);
        self.text.append(name);
        self.text.append(": ");
        self.text.append(value);
        self.text.append(",\n");
        self.written = Ghost(k + 1);
        proof {
            assert(lines.take(k + 1).drop_last() =~= lines.take(k));
            assert(self.text@ =~= self.head@ + concat(lines.take(k + 1)));
        }
    }

    fn end(self) -> (text: String)
        requires
            self.in_step(),
            self.written@ == self.lines@.len(),
        ensures
            text@ == self.head@ + concat(self.lines@),
    {
        assert(self.lines@.take(self.written@) =~= self.lines@);
        self.text
    }
}

/// Lays out a list of items that are given as they are to be shown. `margin`
/// is the margin of the line that the list starts on.
pub fn layout_list(items: &Vec<String>, margin: &str) -> (r: String)
    ensures
        r@ == list_layout(texts(items@), margin@),
{
    if items.len() == 0 {
        return "[]".to_owned();
    }
    let mut inner = margin.to_owned();
    inner.append(INDENT);
    let mut r = "[\n".to_owned();
    let mut i: usize = 0;
    while i < items.len()
        invariant
            i <= items.len(),
            inner@ == margin@ + INDENT@,
            r@ == "[\n"@ + item_lines(texts(items@), i as nat, inner@),
        decreases items.len() - i,
    {
        r.append(inner.as_str());
        r.append(items[i].as_str());
        r.append(",\n");
        i = i + 1;
        assert(r@ =~= "[\n"@ + item_lines(texts(items@), i as nat, inner@));
    }
    r.append(margin);
    r.append("]");
    r
}

/// Lays out a record whose texts are given as they are to be shown. `margin`
/// is the margin of the line that the record starts on.
pub fn layout_record(forms: &DeeplinkRecord, margin: &str) -> (r: String)
    ensures
        r@ == record_layout(forms@, margin@),
{
    let mut inner = margin.to_owned();
    inner.append(INDENT);
    let inner = inner.as_str();
    let mut fields = Fields::begin("Deeplink {\n", Ghost(record_lines(forms@, inner@)));
    fields.field(inner, "guid", forms.guid.as_str());
    fields.field(inner, "bitlink", forms.bitlink.as_str());
    fields.field(inner, "app_uri_path", forms.app_uri_path.as_str());
    fields.field(inner, "install_url", forms.install_url.as_str());
    fields.field(inner, "app_guid", forms.app_guid.as_str());
    fields.field(inner, "os", forms.os.as_str());
    fields.field(inner, "install_type", forms.install_type.as_str());
    fields.field(inner, "created", forms.created.as_str());
    fields.field(inner, "modified", forms.modified.as_str());
    fields.field(inner, "brand_guid", forms.brand_guid.as_str());
    let mut r = fields.end();
    r.append(margin);
    r.append("}");
    r
}

/// Lays out the dump of a resource whose values are given as they are to be
/// shown.
pub fn layout_resource(forms: &ResourceForms) -> (r: String)
    ensures
        r@ == resource_layout(forms@),
{
    let mut deep = INDENT.to_owned();
    deep.append(INDENT);
    let mut records: Vec<String> = Vec::new();
    let mut i: usize = 0;
    while i < forms.deeplinks.len()
        invariant
            i <= forms.deeplinks.len(),
            deep@ == INDENT@ + INDENT@,
            texts(records@) == record_layouts(record_texts(forms.deeplinks@), deep@).take(
                i as int,
            ),
        decreases forms.deeplinks.len() - i,
    {
        let ghost laid = texts(records@);
        let record = layout_record(&forms.deeplinks[i], deep.as_str());
        records.push(record);
        assert(texts(records@) =~= laid.push(record@));
        i = i + 1;
        assert(texts(records@) =~= record_layouts(record_texts(forms.deeplinks@), deep@).take(
            i as int,
        ));
    }
    assert(texts(records@) =~= record_layouts(forms@.deeplinks, INDENT@ + INDENT@));
    let references = indent(forms.references.as_str(), INDENT);
    let archived = if forms.archived {
        "true"
    } else {
        "false"
    };
    let custom_bitlinks = layout_list(&forms.custom_bitlinks, INDENT);
    let tags = layout_list(&forms.tags, INDENT);
    let deeplinks = layout_list(&records, INDENT);
    let mut fields = Fields::begin("BitlyResponse {\n", Ghost(resource_lines(forms@)));
    fields.field(INDENT, "references", references.as_str());
    fields.field(INDENT, "link", forms.link.as_str());
    fields.field(INDENT, "id", forms.id.as_str());
    fields.field(INDENT, "long_url", forms.long_url.as_str());
    fields.field(INDENT, "archived", archived);
    fields.field(INDENT, "created_at", forms.created_at.as_str());
    fields.field(INDENT, "custom_bitlinks", custom_bitlinks.as_str());
    fields.field(INDENT, "tags", tags.as_str());
    fields.field(INDENT, "deeplinks", deeplinks.as_str());
    let mut r = fields.end();
    r.append("}");
    r
}

fn quote_all(items: &Vec<String>) -> (forms: Vec<String>)
    ensures
        texts(forms@) == quoted_all(texts(items@)),
{
    let mut forms: Vec<String> = Vec::new();
    let mut i: usize = 0;
    while i < items.len()
        invariant
            i <= items.len(),
            texts(forms@) == quoted_all(texts(items@)).take(i as int),
        decreases items.len() - i,
    {
        let ghost done = texts(forms@);
        let form = quote(items[i].as_str());
        forms.push(form);
        assert(texts(forms@) =~= done.push(form@));
        i = i + 1;
        assert(texts(forms@) =~= quoted_all(texts(items@)).take(i as int));
    }
    assert(texts(forms@) =~= quoted_all(texts(items@)));
    forms
}

impl DeeplinkRecord {
    /// The record with each of its texts in quotes, as the dump shows them.
    pub fn forms(&self) -> (forms: DeeplinkRecord)
        ensures
            forms@ == quoted_record(self@),
    {
        DeeplinkRecord {
            guid: quote(self.guid.as_str()),
            bitlink: quote(self.bitlink.as_str()),
            app_uri_path: quote(self.app_uri_path.as_str()),
            install_url: quote(self.install_url.as_str()),
            app_guid: quote(self.app_guid.as_str()),
            os: quote(self.os.as_str()),
            install_type: quote(self.install_type.as_str()),
            created: quote(self.created.as_str()),
            modified: quote(self.modified.as_str()),
            brand_guid: quote(self.brand_guid.as_str()),
        }
    }
}

impl BitlinkResource {
    /// The values of the resource in the form in which the dump shows them.
    pub fn forms(&self) -> (forms: ResourceForms)
        ensures
            forms@ == forms_of(*self),
    {
        let mut deeplinks: Vec<DeeplinkRecord> = Vec::new();
        let mut i: usize = 0;
        while i < self.deeplinks.len()
            invariant
                i <= self.deeplinks.len(),
                record_texts(deeplinks@) == quoted_records(record_texts(self.deeplinks@)).take(
                    i as int,
                ),
            decreases self.deeplinks.len() - i,
        {
            let ghost done = record_texts(deeplinks@);
            let record = self.deeplinks[i].forms();
            deeplinks.push(record);
            assert(record_texts(deeplinks@) =~= done.push(record@));
            i = i + 1;
            assert(record_texts(deeplinks@) =~= quoted_records(
                record_texts(self.deeplinks@),
            ).take(i as int));
        }
        assert(record_texts(deeplinks@) =~= quoted_records(record_texts(self.deeplinks@)));
        ResourceForms {
            references: json_dump(&self.references),
            link: quote(self.link.as_str()),
            id: quote(self.id.as_str()),
            long_url: quote(self.long_url.as_str()),
            archived: self.archived,
            created_at: quote(self.created_at.as_str()),
            custom_bitlinks: quote_all(&self.custom_bitlinks),
            tags: quote_all(&self.tags),
            deeplinks,
        }
    }

    /// The dump of the resource: every field of it, by name.
    pub fn dump(&self) -> (r: String)
        ensures
            r@ == dump_text(*self),
    {
        let forms = self.forms();
        layout_resource(&forms)
    }
}

/// Whether `text` shows every field of a resource: the line of each of the
/// nine fields stands in it, with the field's name and the value in the form
/// `forms` gives it. Where there are no deeplinks, the line of that field
/// holds the empty list: the field is not left out.
pub open spec fn shows_every_field(text: Seq<char>, forms: ResourceText) -> bool {
    &&& contains(text, references_line(forms))
    &&& contains(text, field_line(INDENT@, "link"@, forms.link))
    &&& contains(text, field_line(INDENT@, "id"@, forms.id))
    &&& contains(text, field_line(INDENT@, "long_url"@, forms.long_url))
    &&& contains(text, field_line(INDENT@, "archived"@, bool_text(forms.archived)))
    &&& contains(text, field_line(INDENT@, "created_at"@, forms.created_at))
    &&& contains(
        text,
        field_line(INDENT@, "custom_bitlinks"@, list_layout(forms.custom_bitlinks, INDENT@)),
    )
    &&& contains(text, field_line(INDENT@, "tags"@, list_layout(forms.tags, INDENT@)))
    &&& contains(text, deeplinks_line(forms))
    &&& forms.deeplinks.len() == 0 ==> contains(text, field_line(INDENT@, "deeplinks"@, "[]"@))
}

/// The layout of a resource shows every field.
pub proof fn lemma_layout_shows_every_field(forms: ResourceText)
    ensures
        shows_every_field(resource_layout(forms), forms),
{
    let lines = resource_lines(forms);
    let head = "BitlyResponse {\n"@;
    assert forall|k: int| 0 <= k < 9 implies contains(
        resource_layout(forms),
        #[trigger] lines[k],
    ) by {
        lemma_concat_contains(lines, k);
        lemma_contains_later(head, concat(lines), lines[k]);
        lemma_contains_longer(head + concat(lines), "}"@, lines[k]);
    }
    assert(contains(resource_layout(forms), lines[0]));
    assert(contains(resource_layout(forms), lines[1]));
    assert(contains(resource_layout(forms), lines[2]));
    assert(contains(resource_layout(forms), lines[3]));
    assert(contains(resource_layout(forms), lines[4]));
    assert(contains(resource_layout(forms), lines[5]));
    assert(contains(resource_layout(forms), lines[6]));
    assert(contains(resource_layout(forms), lines[7]));
    assert(contains(resource_layout(forms), lines[8]));
}

/// The dump of a resource shows every field of it, each value in the form
/// in which the dump shows values.
pub proof fn lemma_dump_shows_every_field(resource: BitlinkResource)
    ensures
        shows_every_field(dump_text(resource), forms_of(resource)),
{
    lemma_layout_shows_every_field(forms_of(resource));
}

} // verus!
