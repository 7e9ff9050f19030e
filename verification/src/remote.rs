//! Recovers organization and repository from the remotes of the local
//! checkout. Only shorthand patterns need it.

use crate::matching::{find_groups, group, group_text, groups_view, regex_captures};
use crate::model::{ParseError, RepoCoordinates};
use vstd::prelude::*;
use vstd::string::*;

verus! {

/// The two accepted encodings of a repository address: `https://host/org/repo.git`
/// (groups 1 and 2) and `user@host:org/repo.git` (groups 3 and 4).
pub const REMOTE_URL: &'static str =
    "(?:https://[\\w.-]+/([\\w-]+)/([\\w-]+)\\.git)|(?:[\\w.-]+@[\\w.-]+:([\\w-]+)/([\\w-]+)\\.git)";

pub const NO_REPOSITORY: &'static str = "no repository found";

pub const NO_REMOTE: &'static str = "no upstream or origin remote";

pub const UNPARSEABLE_REMOTE: &'static str = "unparseable remote URL";

/// What the local configuration says of one remote name.
#[derive(Clone, Debug, PartialEq, Eq)]
pub enum RemoteEntry {
    /// No remote of that name.
    Absent,
    /// The remote exists, but its URL is not text.
    Unreadable,
    /// The remote exists and this is its URL.
    Url(String),
}

impl View for RemoteEntry {
    type V = Option<Option<Seq<char>>>;

    open spec fn view(&self) -> Option<Option<Seq<char>>> {
        match self {
            RemoteEntry::Absent => None,
            RemoteEntry::Unreadable => Some(None),
            RemoteEntry::Url(url) => Some(Some(url@)),
        }
    }
}

/// The two remotes that are consulted, as found in a checkout.
#[derive(Clone, Debug, PartialEq, Eq)]
pub struct Remotes {
    pub upstream: RemoteEntry,
    pub origin: RemoteEntry,
}

impl View for Remotes {
    type V = (Option<Option<Seq<char>>>, Option<Option<Seq<char>>>);

    open spec fn view(&self) -> (Option<Option<Seq<char>>>, Option<Option<Seq<char>>>) {
        (self.upstream@, self.origin@)
    }
}

/// The view of a workspace: `None` where no checkout was found.
pub open spec fn workspace_view(workspace: Option<Remotes>) -> Option<
    (Option<Option<Seq<char>>>, Option<Option<Seq<char>>>),
> {
    match workspace {
        Some(remotes) => Some(remotes@),
        None => None,
    }
}

/// The remote that counts: "upstream" where it exists, else "origin".
pub open spec fn selected_remote(
    upstream: Option<Option<Seq<char>>>,
    origin: Option<Option<Seq<char>>>,
) -> Option<Option<Seq<char>>> {
    if upstream is Some {
        upstream
    } else {
        origin
    }
}

/// Organization and repository in the groups of a match of `REMOTE_URL`:
/// groups 1 and 2 where the first encoding matched, else groups 3 and 4.
pub open spec fn coordinates_of(groups: Seq<Option<Seq<char>>>) -> Option<(Seq<char>, Seq<char>)> {
    let organization = if group_text(groups, 1) is Some {
        group_text(groups, 1)
    } else {
        group_text(groups, 3)
    };
    let repository = if group_text(groups, 2) is Some {
        group_text(groups, 2)
    } else {
        group_text(groups, 4)
    };
    if organization is Some && repository is Some {
        Some((organization.unwrap(), repository.unwrap()))
    } else {
        None
    }
}

/// The coordinates that a remote URL encodes, if it has one of the two forms.
pub open spec fn remote_coordinates(url: Seq<char>) -> Option<(Seq<char>, Seq<char>)> {
    match regex_captures(REMOTE_URL@, url) {
        Some(groups) => coordinates_of(groups),
        None => None,
    }
}

/// What the resolver answers for a workspace.
pub open spec fn resolve_remote(
    workspace: Option<(Option<Option<Seq<char>>>, Option<Option<Seq<char>>>)>,
) -> Result<(Seq<char>, Seq<char>), Seq<char>> {
    match workspace {
        None => Err(NO_REPOSITORY@),
        Some((upstream, origin)) => match selected_remote(upstream, origin) {
            None => Err(NO_REMOTE@),
            Some(None) => Err(UNPARSEABLE_REMOTE@),
            Some(Some(url)) => match remote_coordinates(url) {
                Some(found) => Ok(found),
                None => Err(UNPARSEABLE_REMOTE@),
            },
        },
    }
}

/// Whether an executable answer is the one that `expected` describes.
pub open spec fn answers(
    r: Result<RepoCoordinates, ParseError>,
    expected: Result<(Seq<char>, Seq<char>), Seq<char>>,
) -> bool {
    match (r, expected) {
        (Ok(found), Ok(model)) => found@ == model && found.wf(),
        (Err(e), Err(message)) => e@ == message,
        _ => false,
    }
}

/// Picks the remote that counts.
pub fn select_remote(remotes: &Remotes) -> (r: &RemoteEntry)
    ensures
        r@ == selected_remote(remotes.upstream@, remotes.origin@),
        remotes.upstream@ is Some ==> *r == remotes.upstream,
        remotes.upstream@ is None ==> *r == remotes.origin,
{
    match remotes.upstream {
        RemoteEntry::Absent => &remotes.origin,
        _ => &remotes.upstream,
    }
}

/// Reads organization and repository from the groups of a match of
/// `REMOTE_URL`.
pub fn coordinates_from_captures(groups: &Vec<Option<String>>) -> (r: Option<RepoCoordinates>)
    ensures
        r.is_some() == coordinates_of(groups_view(groups@)).is_some(),
        r matches Some(found) ==> found.wf() && found@ == coordinates_of(
            groups_view(groups@),
        ).unwrap(),
{
    let organization = match group(groups, 1) {
        Some(text) => Some(text),
        None => group(groups, 3),
    };
    let repository = match group(groups, 2) {
        Some(text) => Some(text),
        None => group(groups, 4),
    };
    match (organization, repository) {
        (Some(organization), Some(repository)) => Some(RepoCoordinates { organization, repository }),
        _ => None,
    }
}

/// Reads organization and repository from a remote URL.
pub fn parse_remote_url(url: &str) -> (r: Result<RepoCoordinates, ParseError>)
    ensures
        answers(
            r,
            match remote_coordinates(url@) {
                Some(found) => Ok(found),
                None => Err(UNPARSEABLE_REMOTE@),
            },
        ),
{
    match find_groups(REMOTE_URL, url) {
        Some(groups) => match coordinates_from_captures(&groups) {
            Some(found) => Ok(found),
            None => Err(ParseError { message: String::from_str(UNPARSEABLE_REMOTE) }),
        },
        None => Err(ParseError { message: String::from_str(UNPARSEABLE_REMOTE) }),
    }
}

/// Derives organization and repository from the workspace: from "upstream"
/// where that remote exists, else from "origin".
pub fn try_get_org_repo(workspace: &Option<Remotes>) -> (r: Result<RepoCoordinates, ParseError>)
    ensures
        answers(r, resolve_remote(workspace_view(*workspace))),
{
    match workspace {
        None => Err(ParseError { message: String::from_str(NO_REPOSITORY) }),
        Some(remotes) => match select_remote(remotes) {
            RemoteEntry::Absent => Err(ParseError { message: String::from_str(NO_REMOTE) }),
            RemoteEntry::Unreadable => Err(
                ParseError { message: String::from_str(UNPARSEABLE_REMOTE) },
            ),
            RemoteEntry::Url(url) => parse_remote_url(url.as_str()),
        },
    }
}

/// Where "upstream" exists, "origin" has no say: two workspaces with the same
/// "upstream" get the same answer, whatever their "origin" holds.
pub proof fn lemma_upstream_shadows_origin(
    upstream: Option<Option<Seq<char>>>,
    origin_a: Option<Option<Seq<char>>>,
    origin_b: Option<Option<Seq<char>>>,
)
    requires
        upstream is Some,
    ensures
        resolve_remote(Some((upstream, origin_a))) == resolve_remote(Some((upstream, origin_b))),
        selected_remote(upstream, origin_a) == upstream,
{
}

/// Coordinates that the resolver answers never have an empty field.
pub proof fn lemma_coordinates_never_empty(
    workspace: Option<(Option<Option<Seq<char>>>, Option<Option<Seq<char>>>)>,
)
    ensures
        resolve_remote(workspace) matches Ok(found) ==> found.0.len() > 0 && found.1.len() > 0,
{
}

} // verus!
