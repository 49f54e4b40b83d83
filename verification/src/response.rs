//! What the service's answer means: a status from 200 to 299 with a resource
//! is a success, and is shown as a line or as a dump; anything else is a
//! failure with a message that names the status.

use crate::command::CommandRequest;
use crate::error::{with_cause, Error, ErrorKind, ErrorView};
use crate::resource::{
    dump_text, forms_of, lemma_dump_shows_every_field, shows_every_field, BitlinkResource,
};
use crate::text::{
    contains, debug_form, decimal, decimal_text, lemma_contains_last, lemma_contains_later,
    lemma_contains_longer, opt_text, quote,
};
use vstd::prelude::*;

verus! {

/// What stands for the phrase of a status code that has none.
pub const UNKNOWN_REASON: &'static str = "<unknown status code>";

/// What the message of an answer that cannot be decoded begins with.
pub const DECODE_MESSAGE: &'static str = "error decoding response body";

/// Whether a status code reports success: the codes from 200 to 299.
pub open spec fn success_status(status: int) -> bool {
    200 <= status < 300
}

/// Whether a status code reports success.
pub fn is_success(status: u16) -> (ok: bool)
    ensures
        ok == success_status(status as int),
{
    200 <= status && status < 300
}

/// The phrase that goes with a status code by convention (`Not Found` with
/// 404), for the codes that have one. The table is the one that the crate
/// `reqwest` has from the crate `http`; it is not spelled out here.
pub uninterp spec fn reason_phrase(status: int) -> Option<Seq<char>>;

/// `StatusCode::canonical_reason` of the crate `reqwest` (which has the type
/// from the crate `http`), on the status code that `StatusCode::from_u16`
/// makes of the number. Trusted: the phrase depends on the number alone, and
/// is the one that `reason_phrase` names. Numbers from 100 to 999 are status
/// codes; others are left out.
#[verifier::external_body]
fn canonical_reason(status: u16) -> (reason: Option<String>)
    requires
        100 <= status <= 999,
    ensures
        opt_text(reason) == reason_phrase(status as int),
{
    match reqwest::StatusCode::from_u16(status) {
        Ok(code) => code.canonical_reason().map(str::to_owned),
        Err(_) => None,
    }
}

/// The phrase of a status code. A number below 100 or above 999 is no status
/// code and has none.
pub open spec fn reason_of(status: int) -> Option<Seq<char>> {
    if 100 <= status <= 999 {
        reason_phrase(status)
    } else {
        None
    }
}

/// The text of an optional string slice.
pub open spec fn opt_str(o: Option<&str>) -> Option<Seq<char>> {
    match o {
        Some(s) => Some(s@),
        None => None,
    }
}

/// A status as it is shown: the number, a space, and the phrase that goes
/// with it.
pub open spec fn status_text(status: nat, reason: Option<Seq<char>>) -> Seq<char> {
    decimal_text(status) + " "@ + match reason {
        Some(reason) => reason,
        None => UNKNOWN_REASON@,
    }
}

/// An optional value as it is shown, where `form` is the value as it is
/// shown if there is one.
pub open spec fn option_layout(form: Option<Seq<char>>) -> Seq<char> {
    match form {
        Some(form) => "Some("@ + form + ")"@,
        None => "None"@,
    }
}

/// The line that reports a new short link.
pub open spec fn link_line(link: Seq<char>) -> Seq<char> {
    "Bitlink: "@ + link
}

/// The line that reports the short link that was looked up, where
/// `link_form` is the link in quotes.
pub open spec fn retrieved_line(link_form: Seq<char>) -> Seq<char> {
    "Retrieved Bitlink: "@ + link_form
}

/// The line that confirms an update, where `title_form` and `tags_form` are
/// the title and the tags as optional values are shown.
pub open spec fn updated_line(
    bitlink: Seq<char>,
    title_form: Seq<char>,
    tags_form: Seq<char>,
) -> Seq<char> {
    "Bitlink '"@ + bitlink + "' updated successfully with title '"@ + title_form
        + "' and tags '"@ + tags_form + "'!"@
}

/// What comes before the status in the message of a link that could not be
/// shortened.
pub open spec fn shorten_context(long_url: Seq<char>) -> Seq<char> {
    "Failed to shorten link at "@ + long_url + ": "@
}

/// What comes before the status in the message of a short link that could
/// not be created, where the three values are given as they are shown.
pub open spec fn create_context(
    long_url_form: Seq<char>,
    tags_form: Seq<char>,
    title_form: Seq<char>,
) -> Seq<char> {
    "Failed to create Bitlink from link '"@ + long_url_form + "', with tags '"@ + tags_form
        + "', and title '"@ + title_form + "': "@
}

/// What comes before the status in the message of a short link that could
/// not be deleted, updated or retrieved; `verb` says which.
pub open spec fn link_context(verb: Seq<char>, bitlink: Seq<char>) -> Seq<char> {
    "Failed to "@ + verb + " Bitlink ("@ + bitlink + "): "@
}

/// An optional text as it is shown: in quotes inside `Some(..)`, or `None`.
pub open spec fn option_form(value: Option<String>) -> Seq<char> {
    option_layout(
        match value {
            Some(value) => Some(debug_form(value@)),
            None => None,
        },
    )
}

/// What comes before the status in the message of an operation that the
/// service refused: the operation, and what it was tried on.
pub open spec fn failure_context(command: CommandRequest) -> Seq<char> {
    match command {
        CommandRequest::Shorten { long_url, .. } => shorten_context(long_url@),
        CommandRequest::Create { long_url, title, tags, .. } => create_context(
            debug_form(long_url@),
            option_form(tags),
            option_form(title),
        ),
        CommandRequest::Delete { bitlink, .. } => link_context("delete"@, bitlink@),
        CommandRequest::Update { bitlink, .. } => link_context("update"@, bitlink@),
        CommandRequest::Retrieve { bitlink, .. } => link_context("retrieve"@, bitlink@),
    }
}

/// The message of an operation that the service refused with `status`.
pub open spec fn failure_text(command: CommandRequest, status: u16) -> Seq<char> {
    failure_context(command) + status_text(status as nat, reason_of(status as int))
}

/// The failure of an operation that the service refused with `status`.
pub open spec fn api_failure(command: CommandRequest, status: u16) -> ErrorView {
    ErrorView {
        kind: ErrorKind::Api,
        status: Some(status),
        message: failure_text(command, status),
    }
}

/// The failure of an answer that reports success but holds no resource.
pub open spec fn decode_failure(detail: Seq<char>) -> ErrorView {
    ErrorView {
        kind: ErrorKind::Decode,
        status: None,
        message: with_cause(DECODE_MESSAGE@, detail),
    }
}

/// The failure of a request that did not reach the service.
pub open spec fn transport_failure(url: Seq<char>, detail: Seq<char>) -> ErrorView {
    ErrorView {
        kind: ErrorKind::Transport,
        status: None,
        message: with_cause("error sending request for url ("@ + url + ")"@, detail),
    }
}

/// The line that reports the success of an operation.
pub open spec fn line_text(command: CommandRequest, resource: BitlinkResource) -> Seq<char> {
    match command {
        CommandRequest::Shorten { .. } => link_line(resource.link@),
        CommandRequest::Create { .. } => link_line(resource.link@),
        CommandRequest::Delete { .. } => link_line(resource.link@),
        CommandRequest::Update { bitlink, title, tags, .. } => updated_line(
            bitlink@,
            option_form(title),
            option_form(tags),
        ),
        CommandRequest::Retrieve { .. } => retrieved_line(debug_form(resource.link@)),
    }
}

/// What is printed on success: the dump of the resource where the whole
/// answer is asked for, else the line of the operation.
pub open spec fn output_text(command: CommandRequest, resource: BitlinkResource) -> Seq<char> {
    if command.wants_dump() {
        dump_text(resource)
    } else {
        line_text(command, resource)
    }
}

/// The mathematical value of what handling an answer gives.
pub open spec fn result_view(r: Result<String, Error>) -> Result<Seq<char>, ErrorView> {
    match r {
        Ok(output) => Ok(output@),
        Err(e) => Err(e@),
    }
}

/// What an answer comes to: with a status that does not report success, the
/// failure that names the status, whatever the body; else the output for the
/// resource, or the failure to decode where the body held none.
pub open spec fn handled(
    command: CommandRequest,
    status: u16,
    body: Result<BitlinkResource, String>,
) -> Result<Seq<char>, ErrorView> {
    if !success_status(status as int) {
        Err(api_failure(command, status))
    } else {
        match body {
            Ok(resource) => Ok(output_text(command, resource)),
            Err(detail) => Err(decode_failure(detail@)),
        }
    }
}

/// Shows a status with the phrase that is given for it.
pub fn show_status(status: u16, reason: Option<&str>) -> (r: String)
    ensures
        r@ == status_text(status as nat, opt_str(reason)),
{
    let mut r = decimal(status);
    r.append(" ");
    match reason {
        Some(reason) => r.append(reason),
        None => r.append(UNKNOWN_REASON),
    }
    r
}

/// Shows a status with the phrase that goes with it by convention.
pub fn describe_status(status: u16) -> (r: String)
    ensures
        r@ == status_text(status as nat, reason_of(status as int)),
{
    if 100 <= status && status <= 999 {
        match canonical_reason(status) {
            Some(reason) => show_status(status, Some(reason.as_str())),
            None => show_status(status, None),
        }
    } else {
        show_status(status, None)
    }
}

/// Shows an optional value whose form, if there is one, is given.
pub fn show_option(form: Option<&str>) -> (r: String)
    ensures
        r@ == option_layout(opt_str(form)),
{
    match form {
        Some(form) => {
            let mut r = "Some(".to_owned();
            r.append(form);
            r.append(")");
            r
        },
        None => "None".to_owned(),
    }
}

/// Shows an optional text.
pub fn describe_option(value: &Option<String>) -> (r: String)
    ensures
        r@ == option_form(*value),
{
    match value {
        Some(value) => {
            let form = quote(value.as_str());
            show_option(Some(form.as_str()))
        },
        None => show_option(None),
    }
}

/// Writes the line that reports a new short link.
pub fn show_link(link: &str) -> (r: String)
    ensures
        r@ == link_line(link@),
{
    let mut r = "Bitlink: ".to_owned();
    r.append(link);
    r
}

/// Writes the line that reports the short link that was looked up, from the
/// link in quotes.
pub fn show_retrieved(link_form: &str) -> (r: String)
    ensures
        r@ == retrieved_line(link_form@),
{
    let mut r = "Retrieved Bitlink: ".to_owned();
    r.append(link_form);
    r
}

/// Writes the line that confirms an update, from the title and the tags as
/// they are shown.
pub fn show_updated(bitlink: &str, title_form: &str, tags_form: &str) -> (r: String)
    ensures
        r@ == updated_line(bitlink@, title_form@, tags_form@),
{
    let mut r = "Bitlink '".to_owned();
    r.append(bitlink);
    r.append("' updated successfully with title '");
    r.append(title_form);
    r.append("' and tags '");
    r.append(tags_form);
    r.append("'!");
    r
}

/// Writes what comes before the status in the message of a link that could
/// not be shortened.
pub fn show_shorten_context(long_url: &str) -> (r: String)
    ensures
        r@ == shorten_context(long_url@),
{
    let mut r = "Failed to shorten link at ".to_owned();
    r.append(long_url);
    r.append(": ");
    r
}

/// Writes what comes before the status in the message of a short link that
/// could not be created, from the three values as they are shown.
pub fn show_create_context(long_url_form: &str, tags_form: &str, title_form: &str) -> (r: String)
    ensures
        r@ == create_context(long_url_form@, tags_form@, title_form@),
{
    let mut r = "Failed to create Bitlink from link '".to_owned();
    r.append(long_url_form);
    r.append("', with tags '");
    r.append(tags_form);
    r.append("', and title '");
    r.append(title_form);
    r.append("': ");
    r
}

/// Writes what comes before the status in the message of a short link that
/// could not be deleted, updated or retrieved.
pub fn show_link_context(verb: &str, bitlink: &str) -> (r: String)
    ensures
        r@ == link_context(verb@, bitlink@),
{
    let mut r = "Failed to ".to_owned();
    r.append(verb);
    r.append(" Bitlink (");
    r.append(bitlink);
    r.append("): ");
    r
}

/// The failure of an operation that the service refused with `status`.
pub fn refused(command: &CommandRequest, status: u16) -> (e: Error)
    ensures
        e@ == api_failure(*command, status),
{
    let mut message = match command {
        CommandRequest::Shorten { long_url, .. } => show_shorten_context(long_url.as_str()),
        CommandRequest::Create { long_url, title, tags, .. } => {
            let long_url_form = quote(long_url.as_str());
            let tags_form = describe_option(tags);
            let title_form = describe_option(title);
            show_create_context(long_url_form.as_str(), tags_form.as_str(), title_form.as_str())
        },
        CommandRequest::Delete { bitlink, .. } => show_link_context("delete", bitlink.as_str()),
        CommandRequest::Update { bitlink, .. } => show_link_context("update", bitlink.as_str()),
        CommandRequest::Retrieve { bitlink, .. } => show_link_context(
            "retrieve",
            bitlink.as_str(),
        ),
    };
    let status_form = describe_status(status);
    message.append(status_form.as_str());
    Error::api(status, message)
}

/// The failure of an answer that reports success but holds no resource;
/// `detail` says what is wrong with it.
pub fn undecodable(detail: &str) -> (e: Error)
    ensures
        e@ == decode_failure(detail@),
{
    Error::caused(ErrorKind::Decode, DECODE_MESSAGE, detail)
}

/// The failure of a request to `url` that did not reach the service;
/// `detail` says why.
pub fn unsent(url: &str, detail: &str) -> (e: Error)
    ensures
        e@ == transport_failure(url@, detail@),
{
    let mut summary = "error sending request for url (".to_owned();
    summary.append(url);
    summary.append(")");
    Error::caused(ErrorKind::Transport, summary.as_str(), detail)
}

/// What is printed for the resource that a successful operation gave.
pub fn render(command: &CommandRequest, resource: &BitlinkResource) -> (r: String)
    ensures
        r@ == output_text(*command, *resource),
{
    if command.verbose() {
        return resource.dump();
    }
    match command {
        CommandRequest::Shorten { .. } => show_link(resource.link.as_str()),
        CommandRequest::Create { .. } => show_link(resource.link.as_str()),
        CommandRequest::Delete { .. } => show_link(resource.link.as_str()),
        CommandRequest::Update { bitlink, title, tags, .. } => {
            let title_form = describe_option(title);
            let tags_form = describe_option(tags);
            show_updated(bitlink.as_str(), title_form.as_str(), tags_form.as_str())
        },
        CommandRequest::Retrieve { .. } => {
            let link_form = quote(resource.link.as_str());
            show_retrieved(link_form.as_str())
        },
    }
}

/// Interprets the service's answer to an operation. `body` is the resource
/// that the answer's body was decoded to, or what is wrong with the body; it
/// is looked at only where the status reports success.
pub fn handle(command: &CommandRequest, status: u16, body: Result<BitlinkResource, String>) -> (r:
    Result<String, Error>)
    ensures
        result_view(r) == handled(*command, status, body),
{
    if !is_success(status) {
        return Err(refused(command, status));
    }
    match body {
        Ok(resource) => Ok(render(command, &resource)),
        Err(detail) => Err(undecodable(detail.as_str())),
    }
}

/// The message of an operation that the service refused names the status:
/// the number stands in it, in decimal.
pub proof fn lemma_failure_names_status(command: CommandRequest, status: u16)
    ensures
        contains(failure_text(command, status), decimal_text(status as nat)),
        api_failure(command, status).status == Some(status),
{
    let reason = match reason_of(status as int) {
        Some(reason) => reason,
        None => UNKNOWN_REASON@,
    };
    let number = decimal_text(status as nat);
    lemma_contains_last(Seq::<char>::empty(), number);
    assert(Seq::<char>::empty() + number =~= number);
    lemma_contains_longer(number, " "@, number);
    lemma_contains_longer(number + " "@, reason, number);
    lemma_contains_later(
        failure_context(command),
        status_text(status as nat, reason_of(status as int)),
        number,
    );
}

/// Where the whole answer is asked for, every operation prints the dump of
/// the resource, the update too, and so shows every field of the resource.
pub proof fn lemma_verbose_output_shows_every_field(
    command: CommandRequest,
    resource: BitlinkResource,
)
    requires
        command.wants_dump(),
    ensures
        output_text(command, resource) == dump_text(resource),
        shows_every_field(output_text(command, resource), forms_of(resource)),
{
    lemma_dump_shows_every_field(resource);
}

} // verus!
