//! One run of an operation, from the credential to the exit status. The
//! library decides and the caller acts: each state says what it waits for,
//! and handing it the answer gives the next thing to do.

use crate::command::CommandRequest;
use crate::credentials::{file_failure, from_file, from_variable, resolved, ApiToken, TokenFile};
use crate::error::{Error, ErrorView};
use crate::request::{
    bearer, build_request, header_failure, header_safe, request_of, url, url_of, HttpRequest,
};
use crate::resource::{dump_text, BitlinkResource};
use crate::response::{
    api_failure, failure_text, handle, handled, is_success, lemma_failure_names_status,
    output_text, refused, result_view, retrieved_line, success_status, transport_failure, unsent,
};
use crate::text::{contains, debug_form, decimal_text, lemma_contains_later, trimmed};
use vstd::prelude::*;

verus! {

/// What stands before the message of a failure on the error stream.
pub const COMPLAINT_PREFIX: &'static str = "Error: ";

/// How a run ends: the exit status, and what is printed, on the standard
/// output after a success and on the error stream after a failure.
#[derive(Debug, PartialEq, Eq)]
pub struct Outcome {
    pub exit_code: u8,
    pub output: Option<String>,
    pub complaint: Option<String>,
}

/// The mathematical value of an `Outcome`.
pub struct OutcomeView {
    pub exit_code: u8,
    pub output: Option<Seq<char>>,
    pub complaint: Option<Seq<char>>,
}

impl View for Outcome {
    type V = OutcomeView;

    open spec fn view(&self) -> OutcomeView {
        OutcomeView {
            exit_code: self.exit_code,
            output: match self.output {
                Some(output) => Some(output@),
                None => None,
            },
            complaint: match self.complaint {
                Some(complaint) => Some(complaint@),
                None => None,
            },
        }
    }
}

/// The end of a run: status 0 and the output after a success, status 1 and
/// the message after a failure.
pub open spec fn finished(result: Result<Seq<char>, ErrorView>) -> OutcomeView {
    match result {
        Ok(output) => OutcomeView { exit_code: 0, output: Some(output), complaint: None },
        Err(e) => OutcomeView {
            exit_code: 1,
            output: None,
            complaint: Some(COMPLAINT_PREFIX@ + e.message),
        },
    }
}

/// Ends a run with the result of the operation.
pub fn finish(result: Result<String, Error>) -> (outcome: Outcome)
    ensures
        outcome@ == finished(result_view(result)),
{
    match result {
        Ok(output) => Outcome { exit_code: 0, output: Some(output), complaint: None },
        Err(e) => {
            let mut complaint = COMPLAINT_PREFIX.to_owned();
            complaint.append(e.message.as_str());
            Outcome { exit_code: 1, output: None, complaint: Some(complaint) }
        },
    }
}

/// A run that waits for the value of the environment variable.
pub struct AwaitingVariable {
    command: CommandRequest,
}

/// A run that waits for what became of reading the token file.
pub struct AwaitingFile {
    command: CommandRequest,
}

/// A run that waits for the service's answer to the request.
pub struct AwaitingReply {
    command: CommandRequest,
}

/// A run that waits for the resource in the body of the answer.
pub struct AwaitingBody {
    command: CommandRequest,
    status: u16,
}

/// What follows once the credential is settled.
pub enum Prepared {
    /// Send the request, and hand the state what came of it.
    Send(HttpRequest, AwaitingReply),
    /// Print, and exit with the status.
    Exit(Outcome),
}

/// What follows the look at the environment variable.
pub enum AfterVariable {
    /// Read the token file, and hand the state what became of it.
    ReadTokenFile(AwaitingFile),
    /// The variable was set: the credential is settled.
    Settled(Prepared),
}

/// What follows the service's reply.
pub enum AfterReply {
    /// Decode the body of the answer, and hand the state what came of it.
    Decode(AwaitingBody),
    /// Print, and exit with the status.
    Exit(Outcome),
}

/// Whether `next` is what follows once the credential `token` is known:
/// sending the operation's request, or the end where no header can hold the
/// credential.
pub open spec fn follows_credential(
    next: Prepared,
    command: CommandRequest,
    token: Seq<char>,
) -> bool {
    if header_safe(bearer(token)) {
        next matches Prepared::Send(request, state) && request@ == request_of(command, token)
            && state.command() == command
    } else {
        next matches Prepared::Exit(outcome) && outcome@ == finished(Err(header_failure()))
    }
}

fn with_credential(command: CommandRequest, token: ApiToken) -> (next: Prepared)
    ensures
        follows_credential(next, command, token@),
{
    match build_request(&command, &token) {
        Ok(request) => Prepared::Send(request, AwaitingReply { command }),
        Err(e) => Prepared::Exit(finish(Err(e))),
    }
}

impl AwaitingVariable {
    /// The operation that is run.
    pub closed spec fn command(self) -> CommandRequest {
        self.command
    }

    /// Starts the run of an operation. The first thing to do is to look the
    /// environment variable up.
    pub fn new(command: CommandRequest) -> (state: AwaitingVariable)
        ensures
            state.command() == command,
    {
        AwaitingVariable { command }
    }

    /// Takes the value of the environment variable. Where the variable is
    /// set, its value without the white space around it is the credential;
    /// where it is not, the token file is to be read.
    pub fn on_variable(self, variable: Option<String>) -> (next: AfterVariable)
        ensures
            match variable {
                Some(value) => next matches AfterVariable::Settled(prepared)
                    && follows_credential(prepared, self.command(), trimmed(value@)),
                None => next matches AfterVariable::ReadTokenFile(state) && state.command()
                    == self.command(),
            },
    {
        match from_variable(variable) {
            Some(token) => AfterVariable::Settled(with_credential(self.command, token)),
            None => AfterVariable::ReadTokenFile(AwaitingFile { command: self.command }),
        }
    }
}

impl AwaitingFile {
    /// The operation that is run.
    pub closed spec fn command(self) -> CommandRequest {
        self.command
    }

    /// Takes what became of reading the token file. Its contents without the
    /// white space around them are the credential; without contents the run
    /// ends.
    pub fn on_file(self, file: TokenFile) -> (next: Prepared)
        ensures
            match file {
                TokenFile::Contents(contents) => follows_credential(
                    next,
                    self.command(),
                    trimmed(contents@),
                ),
                _ => next matches Prepared::Exit(outcome) && outcome@ == finished(
                    Err(file_failure(file)),
                ),
            },
    {
        match from_file(file) {
            Ok(token) => with_credential(self.command, token),
            Err(e) => Prepared::Exit(finish(Err(e))),
        }
    }
}

impl AwaitingReply {
    /// The operation that is run.
    pub closed spec fn command(self) -> CommandRequest {
        self.command
    }

    /// Takes the status of the service's answer, or the reason why there is
    /// none. A status that reports success asks for the body; anything else
    /// ends the run.
    pub fn on_reply(self, reply: Result<u16, String>) -> (next: AfterReply)
        ensures
            match reply {
                Ok(status) => if success_status(status as int) {
                    next matches AfterReply::Decode(state) && state.command() == self.command()
                        && state.status() == status
                } else {
                    next matches AfterReply::Exit(outcome) && outcome@ == finished(
                        Err(api_failure(self.command(), status)),
                    )
                },
                Err(detail) => next matches AfterReply::Exit(outcome) && outcome@ == finished(
                    Err(transport_failure(url_of(self.command()), detail@)),
                ),
            },
    {
        match reply {
            Ok(status) => {
                if is_success(status) {
                    AfterReply::Decode(AwaitingBody { command: self.command, status })
                } else {
                    AfterReply::Exit(finish(Err(refused(&self.command, status))))
                }
            },
            Err(detail) => {
                let target = url(&self.command);
                AfterReply::Exit(finish(Err(unsent(target.as_str(), detail.as_str()))))
            },
        }
    }
}

impl AwaitingBody {
    /// The operation that is run.
    pub closed spec fn command(self) -> CommandRequest {
        self.command
    }

    /// The status of the answer.
    pub closed spec fn status(self) -> u16 {
        self.status
    }

    /// Takes the resource that the body of the answer was decoded to, or
    /// what is wrong with the body, and ends the run.
    pub fn on_body(self, body: Result<BitlinkResource, String>) -> (outcome: Outcome)
        ensures
            outcome@ == finished(handled(self.command(), self.status(), body)),
    {
        finish(handle(&self.command, self.status, body))
    }
}

/// Everything that the world answers in the course of a run: one answer for
/// each thing that the caller may be asked to do.
#[derive(Debug, PartialEq, Eq)]
pub struct Exchange {
    /// The value of the environment variable, where it is set.
    pub variable: Option<String>,
    /// What becomes of reading the token file.
    pub token_file: TokenFile,
    /// The status of the service's answer, or why there is none.
    pub reply: Result<u16, String>,
    /// The resource that the answer's body decodes to, or what is wrong with
    /// the body.
    pub body: Result<BitlinkResource, String>,
}

/// What the service's reply comes to.
pub open spec fn replied(
    command: CommandRequest,
    reply: Result<u16, String>,
    body: Result<BitlinkResource, String>,
) -> Result<Seq<char>, ErrorView> {
    match reply {
        Ok(status) => handled(command, status, body),
        Err(detail) => Err(transport_failure(url_of(command), detail@)),
    }
}

/// The result of an operation in a world that answers as `exchange` says:
/// the first failure on the way from the credential to the answer, or what
/// is printed.
pub open spec fn result_of(command: CommandRequest, exchange: Exchange) -> Result<
    Seq<char>,
    ErrorView,
> {
    match resolved(exchange.variable, exchange.token_file) {
        Ok(token) => if header_safe(bearer(token)) {
            replied(command, exchange.reply, exchange.body)
        } else {
            Err(header_failure())
        },
        Err(e) => Err(e),
    }
}

/// How the run of an operation ends in a world that answers as `exchange`
/// says.
pub open spec fn outcome_of(command: CommandRequest, exchange: Exchange) -> OutcomeView {
    finished(result_of(command, exchange))
}

/// Runs an operation against the answers in `exchange`, state by state, as
/// a caller does that acts in the world.
pub fn dispatch(command: CommandRequest, exchange: Exchange) -> (outcome: Outcome)
    ensures
        outcome@ == outcome_of(command, exchange),
{
    let Exchange { variable, token_file, reply, body } = exchange;
    let prepared = match AwaitingVariable::new(command).on_variable(variable) {
        AfterVariable::ReadTokenFile(state) => state.on_file(token_file),
        AfterVariable::Settled(prepared) => prepared,
    };
    match prepared {
        Prepared::Send(_, state) => match state.on_reply(reply) {
            AfterReply::Decode(state) => state.on_body(body),
            AfterReply::Exit(outcome) => outcome,
        },
        Prepared::Exit(outcome) => outcome,
    }
}

/// An operation that the service answers with a status from 200 to 299 and a
/// resource exits with the status 0 and prints the output for the resource,
/// whichever of the five operations it is.
pub proof fn lemma_success_exits_zero(
    command: CommandRequest,
    exchange: Exchange,
    token: Seq<char>,
    status: u16,
    resource: BitlinkResource,
)
    requires
        resolved(exchange.variable, exchange.token_file) == Ok::<Seq<char>, ErrorView>(token),
        header_safe(bearer(token)),
        exchange.reply == Ok::<u16, String>(status),
        success_status(status as int),
        exchange.body == Ok::<BitlinkResource, String>(resource),
    ensures
        outcome_of(command, exchange).exit_code == 0,
        outcome_of(command, exchange).output == Some(output_text(command, resource)),
        outcome_of(command, exchange).complaint is None,
{
}

/// An operation that the service answers with any other status exits with a
/// status that is not 0, prints nothing, and complains in a message that
/// holds the number of the service's status, whichever of the five
/// operations it is and whatever the body of the answer.
pub proof fn lemma_refusal_exits_nonzero(
    command: CommandRequest,
    exchange: Exchange,
    token: Seq<char>,
    status: u16,
)
    requires
        resolved(exchange.variable, exchange.token_file) == Ok::<Seq<char>, ErrorView>(token),
        header_safe(bearer(token)),
        exchange.reply == Ok::<u16, String>(status),
        !success_status(status as int),
    ensures
        outcome_of(command, exchange).exit_code != 0,
        outcome_of(command, exchange).output is None,
        outcome_of(command, exchange).complaint == Some(
            COMPLAINT_PREFIX@ + failure_text(command, status),
        ),
        contains(outcome_of(command, exchange).complaint->0, decimal_text(status as nat)),
{
    lemma_failure_names_status(command, status);
    lemma_contains_later(
        COMPLAINT_PREFIX@,
        failure_text(command, status),
        decimal_text(status as nat),
    );
}

/// The exit status is 0 exactly if the operation succeeded, and then there is
/// output and no complaint; else it is 1, with a complaint and no output.
pub proof fn lemma_exit_status_tells_success(command: CommandRequest, exchange: Exchange)
    ensures
        outcome_of(command, exchange).exit_code == 0 <==> result_of(command, exchange) is Ok,
        outcome_of(command, exchange).exit_code == 0 || outcome_of(command, exchange).exit_code
            == 1,
        outcome_of(command, exchange).output is Some <==> result_of(command, exchange) is Ok,
        outcome_of(command, exchange).complaint is Some <==> result_of(command, exchange) is Err,
{
}

/// Running an operation twice against the same answers ends the same way
/// both times: the outcome depends on the operation and the answers alone.
pub proof fn lemma_outcome_is_repeatable(
    command: CommandRequest,
    exchange: Exchange,
    first: Outcome,
    second: Outcome,
)
    requires
        first@ == outcome_of(command, exchange),
        second@ == outcome_of(command, exchange),
    ensures
        first@ == second@,
{
}

/// Looking a short link up twice, with the same resource for an answer,
/// prints the same both times: the line with the resource's link in quotes,
/// or the dump of the resource.
pub proof fn lemma_retrieve_is_repeatable(
    bitlink: String,
    verbose: bool,
    exchange: Exchange,
    token: Seq<char>,
    status: u16,
    resource: BitlinkResource,
    first: Outcome,
    second: Outcome,
)
    requires
        resolved(exchange.variable, exchange.token_file) == Ok::<Seq<char>, ErrorView>(token),
        header_safe(bearer(token)),
        exchange.reply == Ok::<u16, String>(status),
        success_status(status as int),
        exchange.body == Ok::<BitlinkResource, String>(resource),
        first@ == outcome_of(CommandRequest::Retrieve { bitlink, verbose }, exchange),
        second@ == outcome_of(CommandRequest::Retrieve { bitlink, verbose }, exchange),
    ensures
        first@ == second@,
        first@.exit_code == 0,
        first@.output == Some(
            if verbose {
                dump_text(resource)
            } else {
                retrieved_line(debug_form(resource.link@))
            },
        ),
{
}

} // verus!
