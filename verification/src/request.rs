//! The request of each operation: its method, its address, its headers and
//! its body. Nothing is sent here; the caller sends what this module built.

use crate::command::CommandRequest;
use crate::credentials::ApiToken;
use crate::error::{Error, ErrorKind, ErrorView};
use crate::text::{opt_text, split, split_on, texts};
use vstd::prelude::*;
use vstd::utf8::{
    char_is_scalar, encode_scalar, encode_utf8, has_width_1_encoding, is_scalar,
    last_continuation_byte, leading_byte_width_1, leading_byte_width_2, leading_byte_width_3,
    leading_byte_width_4, second_last_continuation_byte, third_last_continuation_byte,
};

verus! {

/// The address that every endpoint's path is appended to.
pub const BASE_URL: &'static str = "https://api-ssl.bitly.com/v4";

/// The message of the failure of a credential that no header can hold.
pub const HEADER_MESSAGE: &'static str = "failed to parse header value";

/// The character that separates the tags in the user's list of them.
pub const TAG_SEPARATOR: char = ',';

/// The method of a request.
#[derive(Debug, Clone, Copy, PartialEq, Eq, Structural)]
pub enum Method {
    Get,
    Post,
    Patch,
    Delete,
}

/// One header of a request.
#[derive(Debug, PartialEq, Eq)]
pub struct Header {
    pub name: String,
    pub value: String,
}

/// The body of a request: a JSON object with a member for each field that is
/// present, and none for one that is absent.
#[derive(Debug, PartialEq, Eq)]
pub struct RequestBody {
    pub long_url: Option<String>,
    pub title: Option<String>,
    pub tags: Option<Vec<String>>,
}

/// A request, ready to be sent.
#[derive(Debug, PartialEq, Eq)]
pub struct HttpRequest {
    pub method: Method,
    pub url: String,
    pub headers: Vec<Header>,
    pub body: Option<RequestBody>,
}

/// The value of a member of a body.
#[derive(Debug, PartialEq, Eq)]
pub enum MemberValue {
    Text(String),
    List(Vec<String>),
}

/// A member of a body: a name and its value.
#[derive(Debug, PartialEq, Eq)]
pub struct Member {
    pub name: String,
    pub value: MemberValue,
}

/// The mathematical value of a `RequestBody`.
pub struct RequestBodyView {
    pub long_url: Option<Seq<char>>,
    pub title: Option<Seq<char>>,
    pub tags: Option<Seq<Seq<char>>>,
}

/// The mathematical value of an `HttpRequest`. A header is its name and its
/// value.
pub struct HttpRequestView {
    pub method: Method,
    pub url: Seq<char>,
    pub headers: Seq<(Seq<char>, Seq<char>)>,
    pub body: Option<RequestBodyView>,
}

/// The mathematical value of a `MemberValue`.
pub enum MemberValueView {
    Text(Seq<char>),
    List(Seq<Seq<char>>),
}

/// The headers of a vector, each as its name and its value.
pub open spec fn header_pairs(headers: Seq<Header>) -> Seq<(Seq<char>, Seq<char>)> {
    Seq::new(headers.len(), |i: int| headers[i]@)
}

/// The members of a vector, each as its name and its value.
pub open spec fn member_pairs(members: Seq<Member>) -> Seq<(Seq<char>, MemberValueView)> {
    Seq::new(members.len(), |i: int| members[i]@)
}

impl View for Header {
    type V = (Seq<char>, Seq<char>);

    open spec fn view(&self) -> (Seq<char>, Seq<char>) {
        (self.name@, self.value@)
    }
}

impl View for RequestBody {
    type V = RequestBodyView;

    open spec fn view(&self) -> RequestBodyView {
        RequestBodyView {
            long_url: opt_text(self.long_url),
            title: opt_text(self.title),
            tags: match self.tags {
                Some(tags) => Some(texts(tags@)),
                None => None,
            },
        }
    }
}

impl View for HttpRequest {
    type V = HttpRequestView;

    open spec fn view(&self) -> HttpRequestView {
        HttpRequestView {
            method: self.method,
            url: self.url@,
            headers: header_pairs(self.headers@),
            body: match self.body {
                Some(body) => Some(body@),
                None => None,
            },
        }
    }
}

impl View for MemberValue {
    type V = MemberValueView;

    open spec fn view(&self) -> MemberValueView {
        match self {
            MemberValue::Text(text) => MemberValueView::Text(text@),
            MemberValue::List(items) => MemberValueView::List(texts(items@)),
        }
    }
}

impl View for Member {
    type V = (Seq<char>, MemberValueView);

    open spec fn view(&self) -> (Seq<char>, MemberValueView) {
        (self.name@, self.value@)
    }
}

/// The method of the operation.
pub open spec fn method_of(command: CommandRequest) -> Method {
    match command {
        CommandRequest::Shorten { .. } => Method::Post,
        CommandRequest::Create { .. } => Method::Post,
        CommandRequest::Delete { .. } => Method::Delete,
        CommandRequest::Update { .. } => Method::Patch,
        CommandRequest::Retrieve { .. } => Method::Get,
    }
}

/// The address of the operation's endpoint. The short link's name is
/// appended as it is, with no character replaced.
pub open spec fn url_of(command: CommandRequest) -> Seq<char> {
    match command {
        CommandRequest::Shorten { .. } => BASE_URL@ + "/shorten"@,
        CommandRequest::Create { .. } => BASE_URL@ + "/bitlinks"@,
        CommandRequest::Delete { bitlink, .. } => BASE_URL@ + "/bitlinks/"@ + bitlink@,
        CommandRequest::Update { bitlink, .. } => BASE_URL@ + "/bitlinks/"@ + bitlink@,
        CommandRequest::Retrieve { bitlink, .. } => BASE_URL@ + "/bitlinks/"@ + bitlink@,
    }
}

/// The tags of a list of them: the pieces between the commas, in order and as
/// they stand. White space stays, and so does an empty piece.
pub open spec fn tags_of(list: Option<String>) -> Option<Seq<Seq<char>>> {
    match list {
        Some(list) => Some(split_on(list@, TAG_SEPARATOR)),
        None => None,
    }
}

/// The body of the operation's request, where it has one.
pub open spec fn body_of(command: CommandRequest) -> Option<RequestBodyView> {
    match command {
        CommandRequest::Shorten { long_url, .. } => Some(
            RequestBodyView { long_url: Some(long_url@), title: None, tags: None },
        ),
        CommandRequest::Create { long_url, title, tags, .. } => Some(
            RequestBodyView {
                long_url: Some(long_url@),
                title: opt_text(title),
                tags: tags_of(tags),
            },
        ),
        CommandRequest::Delete { .. } => None,
        CommandRequest::Update { title, tags, .. } => Some(
            RequestBodyView { long_url: None, title: opt_text(title), tags: tags_of(tags) },
        ),
        CommandRequest::Retrieve { .. } => None,
    }
}

/// The value of the header that carries the credential.
pub open spec fn bearer(token: Seq<char>) -> Seq<char> {
    "Bearer "@ + token
}

/// The headers of every request.
pub open spec fn headers_of(token: Seq<char>) -> Seq<(Seq<char>, Seq<char>)> {
    seq![("Authorization"@, bearer(token)), ("Content-Type"@, "application/json"@)]
}

/// Whether a character can stand in the value of a header: the tab can, and
/// so can every character from the space on but DEL. The other control
/// characters, the line break among them, cannot.
pub open spec fn header_char(c: char) -> bool {
    let n = c as u32;
    (n >= 32 && n != 127) || n == 9
}

/// Whether a text can be the value of a header: each of its characters can
/// stand there.
pub open spec fn header_safe(value: Seq<char>) -> bool {
    forall|i: int| 0 <= i < value.len() ==> header_char(#[trigger] value[i])
}

/// Whether a byte can stand in the value of a header: a tab, or any byte from
/// 32 on but 127.
pub open spec fn header_byte(b: u8) -> bool {
    (b >= 32 && b != 127) || b == 9
}

/// Whether each of the bytes can stand in the value of a header.
pub open spec fn header_bytes(bytes: Seq<u8>) -> bool {
    forall|i: int| 0 <= i < bytes.len() ==> header_byte(#[trigger] bytes[i])
}

/// The request of the operation, for a credential that a header can hold.
pub open spec fn request_of(command: CommandRequest, token: Seq<char>) -> HttpRequestView {
    HttpRequestView {
        method: method_of(command),
        url: url_of(command),
        headers: headers_of(token),
        body: body_of(command),
    }
}

/// The failure of a credential that no header can hold.
pub open spec fn header_failure() -> ErrorView {
    ErrorView { kind: ErrorKind::Header, status: None, message: HEADER_MESSAGE@ }
}

/// The members of the JSON object that a body stands for, in the order of
/// their names. A field that is absent has no member.
pub open spec fn members_of(body: RequestBodyView) -> Seq<(Seq<char>, MemberValueView)> {
    (match body.long_url {
        Some(long_url) => seq![("long_url"@, MemberValueView::Text(long_url))],
        None => Seq::empty(),
    }) + (match body.tags {
        Some(tags) => seq![("tags"@, MemberValueView::List(tags))],
        None => Seq::empty(),
    }) + (match body.title {
        Some(title) => seq![("title"@, MemberValueView::Text(title))],
        None => Seq::empty(),
    })
}

/// `HeaderValue::from_str` of the crate `reqwest` (its module `header`, which
/// it has from the crate `http`), asked only whether it accepts the text.
/// Trusted: it accepts a text exactly if each byte of the text is a tab, or
/// is 32 or more and not 127.
#[verifier::external_body]
fn header_value_accepts(text: &str) -> (accepted: bool)
    ensures
        accepted == header_bytes(encode_utf8(text@)),
{
    reqwest::header::HeaderValue::from_str(text).is_ok()
}

proof fn lemma_scalar_in_header(n: u32)
    requires
        is_scalar(n),
    ensures
        header_bytes(encode_scalar(n)) <==> ((n >= 32 && n != 127) || n == 9),
{
    let bytes = encode_scalar(n);
    if has_width_1_encoding(n) {
        assert(leading_byte_width_1(n) == n) by (bit_vector)
            requires
                n <= 0x7F,
        ;
        assert(bytes[0] == n);
    } else {
        assert(leading_byte_width_2(n) >= 0x80) by (bit_vector);
        assert(leading_byte_width_3(n) >= 0x80) by (bit_vector);
        assert(leading_byte_width_4(n) >= 0x80) by (bit_vector);
        assert(last_continuation_byte(n) >= 0x80) by (bit_vector);
        assert(second_last_continuation_byte(n) >= 0x80) by (bit_vector);
        assert(third_last_continuation_byte(n) >= 0x80) by (bit_vector);
    }
}

/// A text can be the value of a header exactly if every byte of its encoding
/// in UTF-8 can stand there: a character beyond the ASCII range is encoded in
/// bytes from 128 on, and every other character in the one byte of its own
/// number.
pub proof fn lemma_header_safe_by_bytes(value: Seq<char>)
    ensures
        header_safe(value) <==> header_bytes(encode_utf8(value)),
    decreases value.len(),
{
    if value.len() > 0 {
        let first = encode_scalar(value[0] as u32);
        let rest = value.drop_first();
        let bytes = encode_utf8(value);
        char_is_scalar(value[0]);
        lemma_scalar_in_header(value[0] as u32);
        lemma_header_safe_by_bytes(rest);
        assert(bytes == first + encode_utf8(rest));
        if header_safe(value) {
            assert(header_char(value[0]));
            assert forall|i: int| 0 <= i < rest.len() implies header_char(#[trigger] rest[i]) by {
                assert(rest[i] == value[i + 1]);
            }
            assert forall|i: int| 0 <= i < bytes.len() implies header_byte(
                #[trigger] bytes[i],
            ) by {
                if i < first.len() {
                    assert(bytes[i] == first[i]);
                } else {
                    assert(bytes[i] == encode_utf8(rest)[i - first.len()]);
                }
            }
        }
        if header_bytes(bytes) {
            assert forall|i: int| 0 <= i < first.len() implies header_byte(
                #[trigger] first[i],
            ) by {
                assert(first[i] == bytes[i]);
            }
            assert forall|i: int| 0 <= i < encode_utf8(rest).len() implies header_byte(
                #[trigger] encode_utf8(rest)[i],
            ) by {
                assert(encode_utf8(rest)[i] == bytes[i + first.len()]);
            }
            assert forall|i: int| 0 <= i < value.len() implies header_char(#[trigger] value[i]) by {
                if i > 0 {
                    assert(value[i] == rest[i - 1]);
                }
            }
        }
    }
}

fn copy_of(text: &Option<String>) -> (r: Option<String>)
    ensures
        opt_text(r) == opt_text(*text),
{
    match text {
        Some(text) => Some(text.clone()),
        None => None,
    }
}

/// Splits a list of tags at its commas.
pub fn split_tags(list: &str) -> (tags: Vec<String>)
    ensures
        texts(tags@) == split_on(list@, TAG_SEPARATOR),
{
    split(list, TAG_SEPARATOR)
}

fn tags_in(list: &Option<String>) -> (r: Option<Vec<String>>)
    ensures
        match r {
            Some(tags) => tags_of(*list) == Some(texts(tags@)),
            None => tags_of(*list) is None,
        },
{
    match list {
        Some(list) => Some(split_tags(list.as_str())),
        None => None,
    }
}

/// The method of the operation.
pub fn method(command: &CommandRequest) -> (m: Method)
    ensures
        m == method_of(*command),
{
    match command {
        CommandRequest::Shorten { .. } => Method::Post,
        CommandRequest::Create { .. } => Method::Post,
        CommandRequest::Delete { .. } => Method::Delete,
        CommandRequest::Update { .. } => Method::Patch,
        CommandRequest::Retrieve { .. } => Method::Get,
    }
}

fn link_url(bitlink: &str) -> (url: String)
    ensures
        url@ == BASE_URL@ + "/bitlinks/"@ + bitlink@,
{
    let mut url = BASE_URL.to_owned();
    url.append("/bitlinks/");
    url.append(bitlink);
    url
}

/// The address of the operation's endpoint.
pub fn url(command: &CommandRequest) -> (url: String)
    ensures
        url@ == url_of(*command),
{
    match command {
        CommandRequest::Shorten { .. } => {
            let mut url = BASE_URL.to_owned();
            url.append("/shorten");
            url
        },
        CommandRequest::Create { .. } => {
            let mut url = BASE_URL.to_owned();
            url.append("/bitlinks");
            url
        },
        CommandRequest::Delete { bitlink, .. } => link_url(bitlink.as_str()),
        CommandRequest::Update { bitlink, .. } => link_url(bitlink.as_str()),
        CommandRequest::Retrieve { bitlink, .. } => link_url(bitlink.as_str()),
    }
}

/// The body of the operation's request, where it has one.
pub fn body(command: &CommandRequest) -> (body: Option<RequestBody>)
    ensures
        match body {
            Some(body) => body_of(*command) == Some(body@),
            None => body_of(*command) is None,
        },
{
    match command {
        CommandRequest::Shorten { long_url, .. } => Some(
            RequestBody { long_url: Some(long_url.clone()), title: None, tags: None },
        ),
        CommandRequest::Create { long_url, title, tags, .. } => Some(
            RequestBody {
                long_url: Some(long_url.clone()),
                title: copy_of(title),
                tags: tags_in(tags),
            },
        ),
        CommandRequest::Delete { .. } => None,
        CommandRequest::Update { title, tags, .. } => Some(
            RequestBody { long_url: None, title: copy_of(title), tags: tags_in(tags) },
        ),
        CommandRequest::Retrieve { .. } => None,
    }
}

/// The headers of every request: the credential and the kind of the body.
/// Fails exactly if no header can hold the credential.
pub fn headers(token: &ApiToken) -> (r: Result<Vec<Header>, Error>)
    ensures
        match r {
            Ok(headers) => header_safe(bearer(token@)) && header_pairs(headers@) == headers_of(
                token@,
            ),
            Err(e) => !header_safe(bearer(token@)) && e@ == header_failure(),
        },
{
    let mut value = "Bearer ".to_owned();
    value.append(token.as_str());
    proof {
        lemma_header_safe_by_bytes(value@);
    }
    if !header_value_accepts(value.as_str()) {
        return Err(Error::new(ErrorKind::Header, HEADER_MESSAGE.to_owned()));
    }
    let mut headers: Vec<Header> = Vec::new();
    headers.push(Header { name: "Authorization".to_owned(), value });
    headers.push(
        Header { name: "Content-Type".to_owned(), value: "application/json".to_owned() },
    );
    assert(header_pairs(headers@) =~= headers_of(token@));
    Ok(headers)
}

/// Builds the request of an operation. It fails exactly if no header can hold
/// the credential, and then with the failure of the kind `Header`.
pub fn build_request(command: &CommandRequest, token: &ApiToken) -> (r: Result<HttpRequest, Error>)
    ensures
        match r {
            Ok(request) => header_safe(bearer(token@)) && request@ == request_of(
                *command,
                token@,
            ),
            Err(e) => !header_safe(bearer(token@)) && e@ == header_failure(),
        },
{
    match headers(token) {
        Ok(headers) => Ok(
            HttpRequest {
                method: method(command),
                url: url(command),
                headers,
                body: body(command),
            },
        ),
        Err(e) => Err(e),
    }
}

impl RequestBody {
    /// The members of the JSON object that the body stands for.
    pub fn members(&self) -> (members: Vec<Member>)
        ensures
            member_pairs(members@) == members_of(self@),
    {
        let mut members: Vec<Member> = Vec::new();
        if let Some(long_url) = &self.long_url {
            members.push(
                Member { name: "long_url".to_owned(), value: MemberValue::Text(long_url.clone()) },
            );
        }
        if let Some(tags) = &self.tags {
            let mut items: Vec<String> = Vec::new();
            let mut i: usize = 0;
            while i < tags.len()
                invariant
                    i <= tags.len(),
                    texts(items@) == texts(tags@).take(i as int),
                decreases tags.len() - i,
            {
                let ghost copied = texts(items@);
                let item = tags[i].clone();
                items.push(item);
                assert(texts(items@) =~= copied.push(tags@[i as int]@));
                assert(texts(items@) =~= texts(tags@).take(i + 1));
                i = i + 1;
            }
            assert(texts(tags@).take(tags.len() as int) =~= texts(tags@));
            members.push(Member { name: "tags".to_owned(), value: MemberValue::List(items) });
        }
        if let Some(title) = &self.title {
            members.push(
                Member { name: "title".to_owned(), value: MemberValue::Text(title.clone()) },
            );
        }
        assert(member_pairs(members@) =~= members_of(self@));
        members
    }
}

/// A short link is created with the tags of the user's list, in the order of
/// the list: the member `tags` of the body holds the pieces between the
/// commas, one after the other.
pub proof fn lemma_create_sends_the_tags_in_order(
    long_url: String,
    title: Option<String>,
    list: String,
    verbose: bool,
)
    ensures
        body_of(CommandRequest::Create { long_url, title, tags: Some(list), verbose }) matches Some(
            body,
        ) && body.tags == Some(split_on(list@, TAG_SEPARATOR)) && members_of(body)[1] == (
            "tags"@,
            MemberValueView::List(split_on(list@, TAG_SEPARATOR)),
        ),
{
}

/// An update that names neither a title nor tags sends the empty object.
pub proof fn lemma_bare_update_sends_empty_object(bitlink: String, verbose: bool)
    ensures
        body_of(CommandRequest::Update { bitlink, title: None, tags: None, verbose }) matches Some(
            body,
        ) && members_of(body) == Seq::<(Seq<char>, MemberValueView)>::empty(),
{
    let body = body_of(CommandRequest::Update { bitlink, title: None, tags: None, verbose })->0;
    assert(members_of(body) =~= Seq::<(Seq<char>, MemberValueView)>::empty());
}

} // verus!
