//! The five operations, each with the values that the user gave for it.

use vstd::prelude::*;

verus! {

/// One operation on a short link. A text is as the user wrote it; `tags` is
/// the list of tags still in one piece, with commas between them.
#[derive(Debug, PartialEq, Eq)]
pub enum CommandRequest {
    /// Shortens a long link.
    Shorten { long_url: String, verbose: bool },
    /// Creates a short link, with a title and tags where they are given.
    Create { long_url: String, title: Option<String>, tags: Option<String>, verbose: bool },
    /// Deletes a short link.
    Delete { bitlink: String, verbose: bool },
    /// Gives a short link the title and the tags that are given.
    Update { bitlink: String, title: Option<String>, tags: Option<String>, verbose: bool },
    /// Looks a short link up.
    Retrieve { bitlink: String, verbose: bool },
}

impl CommandRequest {
    /// Whether the whole answer is to be printed, not only a line.
    pub open spec fn wants_dump(self) -> bool {
        match self {
            CommandRequest::Shorten { verbose, .. } => verbose,
            CommandRequest::Create { verbose, .. } => verbose,
            CommandRequest::Delete { verbose, .. } => verbose,
            CommandRequest::Update { verbose, .. } => verbose,
            CommandRequest::Retrieve { verbose, .. } => verbose,
        }
    }

    /// Whether the whole answer is to be printed, not only a line.
    pub fn verbose(&self) -> (v: bool)
        ensures
            v == self.wants_dump(),
    {
        match self {
            CommandRequest::Shorten { verbose, .. } => *verbose,
            CommandRequest::Create { verbose, .. } => *verbose,
            CommandRequest::Delete { verbose, .. } => *verbose,
            CommandRequest::Update { verbose, .. } => *verbose,
            CommandRequest::Retrieve { verbose, .. } => *verbose,
        }
    }
}

} // verus!
