//! Where the credential comes from: the environment variable if it is set,
//! else the token file. The caller looks both up; this module decides.

use crate::error::{with_cause, Error, ErrorKind, ErrorView};
use crate::text::{lemma_trimmed_is_stable, trim, trimmed};
use vstd::prelude::*;

verus! {

/// The environment variable that is asked for the credential first.
pub const TOKEN_VARIABLE: &'static str = "BITLY_API_TOKEN";

/// The file that is read for the credential where the variable is not set.
pub const TOKEN_FILE: &'static str = ".bitly_token";

/// The message of a failure to read the token file once it was opened.
pub const UNREAD_MESSAGE: &'static str = "Failed to get API file token.";

/// The credential that authorises a request. It holds no white space at
/// either end.
pub struct ApiToken {
    secret: String,
}

impl View for ApiToken {
    type V = Seq<char>;

    closed spec fn view(&self) -> Seq<char> {
        self.secret@
    }
}

impl ApiToken {
    #[verifier::type_invariant]
    spec fn bare(self) -> bool {
        trimmed(self.secret@) == self.secret@
    }

    /// The credential that the text `raw` gives: `raw` without the white
    /// space around it.
    pub fn new(raw: &str) -> (token: ApiToken)
        ensures
            token@ == trimmed(raw@),
    {
        proof {
            lemma_trimmed_is_stable(raw@);
        }
        ApiToken { secret: trim(raw) }
    }

    /// The credential's text.
    pub fn as_str(&self) -> (s: &str)
        ensures
            s@ == self@,
            trimmed(s@) == s@,
    {
        proof {
            use_type_invariant(self);
        }
        self.secret.as_str()
    }
}

/// What became of the attempt to read the token file.
#[derive(Debug, PartialEq, Eq)]
pub enum TokenFile {
    /// The file was read; this is all that it holds.
    Contents(String),
    /// The file could not be opened; the text says why.
    Unopened(String),
    /// The file was opened but could not be read; the text says why.
    Unread(String),
}

/// The message for a token file that gave no contents.
pub open spec fn file_failure_message(file: TokenFile) -> Seq<char> {
    match file {
        TokenFile::Contents(_) => Seq::<char>::empty(),
        TokenFile::Unopened(reason) => reason@,
        TokenFile::Unread(reason) => with_cause(UNREAD_MESSAGE@, reason@),
    }
}

/// The failure that a token file without contents stands for.
pub open spec fn file_failure(file: TokenFile) -> ErrorView {
    ErrorView { kind: ErrorKind::Credential, status: None, message: file_failure_message(file) }
}

/// What resolving the credential comes to: the variable's value if the
/// variable is set, whatever became of the file; else the file's contents;
/// in both cases without the white space around it. Where the variable is not
/// set and the file gave no contents, it is the failure that the file stands
/// for.
pub open spec fn resolved(variable: Option<String>, file: TokenFile) -> Result<
    Seq<char>,
    ErrorView,
> {
    match variable {
        Some(value) => Ok(trimmed(value@)),
        None => match file {
            TokenFile::Contents(contents) => Ok(trimmed(contents@)),
            _ => Err(file_failure(file)),
        },
    }
}

/// The credential from the environment variable, where it is set. Where it is
/// not, the token file is to be read.
pub fn from_variable(variable: Option<String>) -> (token: Option<ApiToken>)
    ensures
        match token {
            Some(token) => variable matches Some(value) && token@ == trimmed(value@),
            None => variable is None,
        },
{
    match variable {
        Some(value) => Some(ApiToken::new(value.as_str())),
        None => None,
    }
}

/// The credential from the token file, or the failure where the file gave no
/// contents.
pub fn from_file(file: TokenFile) -> (r: Result<ApiToken, Error>)
    ensures
        match r {
            Ok(token) => file matches TokenFile::Contents(contents) && token@ == trimmed(
                contents@,
            ),
            Err(e) => !(file is Contents) && e@ == file_failure(file),
        },
{
    match file {
        TokenFile::Contents(contents) => Ok(ApiToken::new(contents.as_str())),
        TokenFile::Unopened(reason) => Err(Error::new(ErrorKind::Credential, reason)),
        TokenFile::Unread(reason) => Err(
            Error::caused(ErrorKind::Credential, UNREAD_MESSAGE, reason.as_str()),
        ),
    }
}

/// Resolves the credential from what the two sources gave. The file is
/// looked at only where the variable is not set.
pub fn resolve_token(variable: Option<String>, file: TokenFile) -> (r: Result<ApiToken, Error>)
    ensures
        match r {
            Ok(token) => resolved(variable, file) == Ok::<Seq<char>, ErrorView>(token@),
            Err(e) => resolved(variable, file) == Err::<Seq<char>, ErrorView>(e@),
        },
{
    match from_variable(variable) {
        Some(token) => Ok(token),
        None => from_file(file),
    }
}

/// The variable wins: where it is set, the credential is its value without
/// the white space around it, whatever became of the token file.
pub proof fn lemma_variable_wins(value: String, file: TokenFile)
    ensures
        resolved(Some(value), file) == Ok::<Seq<char>, ErrorView>(trimmed(value@)),
{
}

/// Without the variable and without contents of the file, resolving fails,
/// and always in the same way: with the failure of the kind `Credential`
/// that says what became of the file.
pub proof fn lemma_no_source_fails(file: TokenFile)
    requires
        !(file is Contents),
    ensures
        resolved(None, file) == Err::<Seq<char>, ErrorView>(file_failure(file)),
        file_failure(file).kind == ErrorKind::Credential,
{
}

} // verus!
