//! The values that travel between the resolver, the status checker and the
//! caller, each with its mathematical view.

use vstd::prelude::*;

verus! {

/// The text of an optional string.
pub open spec fn text_of(o: Option<String>) -> Option<Seq<char>> {
    match o {
        Some(s) => Some(s@),
        None => None,
    }
}

/// The pattern is malformed, or the local remotes could not complete it.
/// Always detected before any request is made.
#[derive(Clone, Debug, PartialEq, Eq)]
pub struct ParseError {
    pub message: String,
}

impl View for ParseError {
    type V = Seq<char>;

    open spec fn view(&self) -> Seq<char> {
        self.message@
    }
}

/// Organization and repository recovered from a remote of the local checkout.
#[derive(Clone, Debug, PartialEq, Eq)]
pub struct RepoCoordinates {
    pub organization: String,
    pub repository: String,
}

impl View for RepoCoordinates {
    type V = (Seq<char>, Seq<char>);

    open spec fn view(&self) -> (Seq<char>, Seq<char>) {
        (self.organization@, self.repository@)
    }
}

impl RepoCoordinates {
    /// Neither field is empty.
    pub open spec fn wf(&self) -> bool {
        self.organization@.len() > 0 && self.repository@.len() > 0
    }
}

/// A fully qualified issue: the only value from which an address is built.
#[derive(Clone, Debug, PartialEq, Eq)]
pub struct IssueReference {
    pub organization: String,
    pub repository: String,
    pub issue_number: String,
}

impl View for IssueReference {
    type V = (Seq<char>, Seq<char>, Seq<char>);

    open spec fn view(&self) -> (Seq<char>, Seq<char>, Seq<char>) {
        (self.organization@, self.repository@, self.issue_number@)
    }
}

impl IssueReference {
    /// No field is empty.
    pub open spec fn wf(&self) -> bool {
        self.organization@.len() > 0 && self.repository@.len() > 0 && self.issue_number@.len() > 0
    }
}

/// The address at which the status of one issue is queried.
#[derive(Clone, Debug, PartialEq, Eq)]
pub struct Endpoint {
    pub url: String,
}

impl View for Endpoint {
    type V = Seq<char>;

    open spec fn view(&self) -> Seq<char> {
        self.url@
    }
}

} // verus!
