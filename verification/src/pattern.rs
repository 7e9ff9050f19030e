//! Turns one free-form issue pattern into the address of the issue, trying the
//! accepted shapes from the most specific to the least.

use crate::address::{join_address, parse_address, url_join, url_parse};
use crate::matching::{find_groups, group, group_text, groups_view, regex_captures};
use crate::model::{Endpoint, IssueReference, ParseError, RepoCoordinates};
use crate::remote::{resolve_remote, try_get_org_repo, workspace_view, Remotes};
use vstd::prelude::*;
use vstd::string::*;

verus! {

/// A full issue URL of the hosting service: organization, repository, number.
pub const ISSUE_URL: &'static str = "https?://github\\.com/([\\w-]+)/([\\w-]+)/issues/(\\d+)";

/// `owner/repo#number` or `owner/repo/number`.
pub const OWNER_REPO_ISSUE: &'static str = "([\\w-]+)/([\\w-]+)[#/](\\d+)";

/// `repo#number` or `repo/number`.
pub const REPO_ISSUE: &'static str = "([\\w-]+)[#/](\\d+)";

/// `#number` or `number`.
pub const ISSUE: &'static str = "#?(\\d+)";

/// The address under which the hosting service answers for repositories.
pub const API_BASE: &'static str = "https://api.github.com/repos/";

pub const COULD_NOT_PARSE: &'static str = "could not parse issue pattern";

pub const MALFORMED_URL: &'static str = "issue URL is not a well-formed URL";

pub const MALFORMED_ENDPOINT: &'static str = "could not build the issue address";

/// The shape that a pattern was recognised in, most specific first.
#[derive(Clone, Copy, Debug, PartialEq, Eq, Structural)]
pub enum Tier {
    AbsoluteUrl,
    OwnerRepoIssue,
    RepoIssue,
    BareNumber,
}

impl Tier {
    /// Whether a pattern of this shape leaves something to the remotes.
    pub open spec fn shorthand(self) -> bool {
        self == Tier::RepoIssue || self == Tier::BareNumber
    }

    /// Whether a pattern of this shape leaves something to the remotes.
    pub fn needs_remote(self) -> (r: bool)
        ensures
            r == self.shorthand(),
    {
        match self {
            Tier::AbsoluteUrl => false,
            Tier::OwnerRepoIssue => false,
            Tier::RepoIssue => true,
            Tier::BareNumber => true,
        }
    }
}

/// A pattern's shape and the groups that the shape's expression captured.
#[derive(Clone, Debug, PartialEq, Eq)]
pub struct PatternMatch {
    pub tier: Tier,
    pub groups: Vec<Option<String>>,
}

impl View for PatternMatch {
    type V = (Tier, Seq<Option<Seq<char>>>);

    open spec fn view(&self) -> (Tier, Seq<Option<Seq<char>>>) {
        (self.tier, groups_view(self.groups@))
    }
}

/// The first shape whose expression matches the pattern, with its groups.
pub open spec fn tier_of(pattern: Seq<char>) -> Option<(Tier, Seq<Option<Seq<char>>>)> {
    if regex_captures(ISSUE_URL@, pattern) is Some {
        Some((Tier::AbsoluteUrl, regex_captures(ISSUE_URL@, pattern).unwrap()))
    } else if regex_captures(OWNER_REPO_ISSUE@, pattern) is Some {
        Some((Tier::OwnerRepoIssue, regex_captures(OWNER_REPO_ISSUE@, pattern).unwrap()))
    } else if regex_captures(REPO_ISSUE@, pattern) is Some {
        Some((Tier::RepoIssue, regex_captures(REPO_ISSUE@, pattern).unwrap()))
    } else if regex_captures(ISSUE@, pattern) is Some {
        Some((Tier::BareNumber, regex_captures(ISSUE@, pattern).unwrap()))
    } else {
        None
    }
}

/// Three texts as a reference, where all three are there.
pub open spec fn triple(
    organization: Option<Seq<char>>,
    repository: Option<Seq<char>>,
    issue_number: Option<Seq<char>>,
) -> Option<(Seq<char>, Seq<char>, Seq<char>)> {
    if organization is Some && repository is Some && issue_number is Some {
        Some((organization.unwrap(), repository.unwrap(), issue_number.unwrap()))
    } else {
        None
    }
}

/// A remote's field, where the remotes were resolved and the field is not empty.
pub open spec fn remote_field(text: Option<Seq<char>>) -> Option<Seq<char>> {
    if text is Some && text.unwrap().len() > 0 {
        text
    } else {
        None
    }
}

/// The reference that a shape's groups and the remotes' coordinates give.
/// The pattern's own tokens come first: the remotes supply only what the
/// shape leaves out.
pub open spec fn reference_of(
    tier: Tier,
    groups: Seq<Option<Seq<char>>>,
    remote: Option<(Seq<char>, Seq<char>)>,
) -> Option<(Seq<char>, Seq<char>, Seq<char>)> {
    let organization = remote_field(
        match remote {
            Some(found) => Some(found.0),
            None => None,
        },
    );
    let repository = remote_field(
        match remote {
            Some(found) => Some(found.1),
            None => None,
        },
    );
    match tier {
        Tier::AbsoluteUrl => triple(
            group_text(groups, 1),
            group_text(groups, 2),
            group_text(groups, 3),
        ),
        Tier::OwnerRepoIssue => triple(
            group_text(groups, 1),
            group_text(groups, 2),
            group_text(groups, 3),
        ),
        Tier::RepoIssue => triple(organization, group_text(groups, 1), group_text(groups, 2)),
        Tier::BareNumber => triple(organization, repository, group_text(groups, 1)),
    }
}

/// What is joined to the base address for a reference.
pub open spec fn endpoint_path(reference: (Seq<char>, Seq<char>, Seq<char>)) -> Seq<char> {
    reference.0 + "/"@ + reference.1 + "/issues/"@ + reference.2
}

/// The address of a reference, where the parts join to a well-formed URL.
pub open spec fn endpoint_of(reference: (Seq<char>, Seq<char>, Seq<char>)) -> Option<Seq<char>> {
    url_join(API_BASE@, endpoint_path(reference))
}

/// The coordinates that a shape asks of the remotes: `None` where it asks for
/// nothing, else what the remotes answer.
pub open spec fn remote_for(
    tier: Tier,
    workspace: Option<(Option<Option<Seq<char>>>, Option<Option<Seq<char>>>)>,
) -> Option<Result<(Seq<char>, Seq<char>), Seq<char>>> {
    if tier.shorthand() {
        Some(resolve_remote(workspace))
    } else {
        None
    }
}

/// The reference that a pattern stands for in a workspace, or the message of
/// the error. An error of the remotes is handed on unchanged.
pub open spec fn resolve_reference(
    pattern: Seq<char>,
    workspace: Option<(Option<Option<Seq<char>>>, Option<Option<Seq<char>>>)>,
) -> Result<(Seq<char>, Seq<char>, Seq<char>), Seq<char>> {
    match tier_of(pattern) {
        None => Err(COULD_NOT_PARSE@),
        Some((tier, groups)) => match remote_for(tier, workspace) {
            Some(Err(message)) => Err(message),
            Some(Ok(found)) => match reference_of(tier, groups, Some(found)) {
                Some(reference) => Ok(reference),
                None => Err(COULD_NOT_PARSE@),
            },
            None => match reference_of(tier, groups, None) {
                Some(reference) => Ok(reference),
                None => Err(COULD_NOT_PARSE@),
            },
        },
    }
}

/// The answer for a reference: its address, or the error of a malformed one.
pub open spec fn address_or_error(reference: (Seq<char>, Seq<char>, Seq<char>)) -> Result<
    Seq<char>,
    Seq<char>,
> {
    match endpoint_of(reference) {
        Some(url) => Ok(url),
        None => Err(MALFORMED_ENDPOINT@),
    }
}

/// What resolving a pattern in a workspace answers: the address, or the
/// message of the error. A full URL is its own address, once it parses as a
/// URL; every other shape is joined to the base address.
pub open spec fn resolve_pattern(
    pattern: Seq<char>,
    workspace: Option<(Option<Option<Seq<char>>>, Option<Option<Seq<char>>>)>,
) -> Result<Seq<char>, Seq<char>> {
    match resolve_reference(pattern, workspace) {
        Err(message) => Err(message),
        Ok(reference) => if tier_of(pattern).unwrap().0 == Tier::AbsoluteUrl {
            match url_parse(pattern) {
                Some(url) => Ok(url),
                None => Err(MALFORMED_URL@),
            }
        } else {
            address_or_error(reference)
        },
    }
}

/// Finds the first shape whose expression matches the pattern.
pub fn classify(pattern: &str) -> (r: Option<PatternMatch>)
    ensures
        r.is_some() == tier_of(pattern@).is_some(),
        r matches Some(found) ==> found@ == tier_of(pattern@).unwrap(),
{
    if let Some(groups) = find_groups(ISSUE_URL, pattern) {
        return Some(PatternMatch { tier: Tier::AbsoluteUrl, groups });
    }
    if let Some(groups) = find_groups(OWNER_REPO_ISSUE, pattern) {
        return Some(PatternMatch { tier: Tier::OwnerRepoIssue, groups });
    }
    if let Some(groups) = find_groups(REPO_ISSUE, pattern) {
        return Some(PatternMatch { tier: Tier::RepoIssue, groups });
    }
    if let Some(groups) = find_groups(ISSUE, pattern) {
        return Some(PatternMatch { tier: Tier::BareNumber, groups });
    }
    None
}

/// Whether the pattern is shorthand, so that resolving it reads the remotes.
pub fn pattern_needs_remote(pattern: &str) -> (r: bool)
    ensures
        r == (tier_of(pattern@) matches Some(found) && found.0.shorthand()),
{
    match classify(pattern) {
        Some(found) => found.tier.needs_remote(),
        None => false,
    }
}

/// Builds the reference from the groups that a shape captured and, for a
/// shorthand shape, the coordinates that the remotes gave.
pub fn reference_from_captures(
    tier: Tier,
    groups: &Vec<Option<String>>,
    remote: Option<RepoCoordinates>,
) -> (r: Option<IssueReference>)
    ensures
        r.is_some() == reference_of(
            tier,
            groups_view(groups@),
            match remote {
                Some(found) => Some(found@),
                None => None,
            },
        ).is_some(),
        r matches Some(reference) ==> reference.wf() && reference@ == reference_of(
            tier,
            groups_view(groups@),
            match remote {
                Some(found) => Some(found@),
                None => None,
            },
        ).unwrap(),
{
    let (remote_organization, remote_repository) = match remote {
        Some(found) => (non_empty(found.organization), non_empty(found.repository)),
        None => (None, None),
    };
    let (organization, repository, issue_number) = match tier {
        Tier::AbsoluteUrl => (group(groups, 1), group(groups, 2), group(groups, 3)),
        Tier::OwnerRepoIssue => (group(groups, 1), group(groups, 2), group(groups, 3)),
        Tier::RepoIssue => (remote_organization, group(groups, 1), group(groups, 2)),
        Tier::BareNumber => (remote_organization, remote_repository, group(groups, 1)),
    };
    match (organization, repository, issue_number) {
        (Some(organization), Some(repository), Some(issue_number)) => Some(
            IssueReference { organization, repository, issue_number },
        ),
        _ => None,
    }
}

/// The text, unless it is empty.
pub fn non_empty(text: String) -> (r: Option<String>)
    ensures
        crate::model::text_of(r) == remote_field(Some(text@)),
{
    if text.as_str().is_empty() {
        None
    } else {
        Some(text)
    }
}

/// Builds the address at which the hosting service answers for the issue.
pub fn endpoint(reference: &IssueReference) -> (r: Result<Endpoint, ParseError>)
    ensures
        match r {
            Ok(address) => endpoint_of(reference@) == Some(address@),
            Err(e) => endpoint_of(reference@) is None && e@ == MALFORMED_ENDPOINT@,
        },
{
    let mut path = reference.organization.clone();
    path.append("/");
    path.append(reference.repository.as_str());
    path.append("/issues/");
    path.append(reference.issue_number.as_str());
    match join_address(API_BASE, path.as_str()) {
        Some(url) => Ok(Endpoint { url }),
        None => Err(ParseError { message: String::from_str(MALFORMED_ENDPOINT) }),
    }
}

/// Whether an executable answer is the one that `expected` describes.
pub open spec fn resolves_to(
    r: Result<Endpoint, ParseError>,
    expected: Result<Seq<char>, Seq<char>>,
) -> bool {
    match (r, expected) {
        (Ok(address), Ok(url)) => address@ == url,
        (Err(e), Err(message)) => e@ == message,
        _ => false,
    }
}

/// Whether an executable reference is the one that `expected` describes.
pub open spec fn refers_to(
    r: Result<IssueReference, ParseError>,
    expected: Result<(Seq<char>, Seq<char>, Seq<char>), Seq<char>>,
) -> bool {
    match (r, expected) {
        (Ok(reference), Ok(model)) => reference@ == model && reference.wf(),
        (Err(e), Err(message)) => e@ == message,
        _ => false,
    }
}

/// Completes what a pattern matched to a reference. The remotes of the
/// workspace are read only where the shape is shorthand.
pub fn complete(found: &PatternMatch, workspace: &Option<Remotes>) -> (r: Result<
    IssueReference,
    ParseError,
>)
    ensures
        refers_to(
            r,
            match remote_for(found.tier, workspace_view(*workspace)) {
                Some(Err(message)) => Err(message),
                Some(Ok(remote)) => match reference_of(found.tier, found@.1, Some(remote)) {
                    Some(reference) => Ok(reference),
                    None => Err(COULD_NOT_PARSE@),
                },
                None => match reference_of(found.tier, found@.1, None) {
                    Some(reference) => Ok(reference),
                    None => Err(COULD_NOT_PARSE@),
                },
            },
        ),
{
    let remote = if found.tier.needs_remote() {
        match try_get_org_repo(workspace) {
            Ok(coordinates) => Some(coordinates),
            Err(e) => {
                return Err(e);
            },
        }
    } else {
        None
    };
    match reference_from_captures(found.tier, &found.groups, remote) {
        Some(reference) => Ok(reference),
        None => Err(ParseError { message: String::from_str(COULD_NOT_PARSE) }),
    }
}

/// Resolves a pattern to the issue that it refers to.
pub fn parse_issue_reference(pattern: &str, workspace: &Option<Remotes>) -> (r: Result<
    IssueReference,
    ParseError,
>)
    ensures
        refers_to(r, resolve_reference(pattern@, workspace_view(*workspace))),
{
    match classify(pattern) {
        Some(found) => complete(&found, workspace),
        None => Err(ParseError { message: String::from_str(COULD_NOT_PARSE) }),
    }
}

/// Resolves a pattern to the address of its issue. The remotes of the
/// workspace are read only where the pattern is shorthand.
pub fn parse_issue_pattern(pattern: &str, workspace: &Option<Remotes>) -> (r: Result<
    Endpoint,
    ParseError,
>)
    ensures
        resolves_to(r, resolve_pattern(pattern@, workspace_view(*workspace))),
{
    let found = match classify(pattern) {
        Some(found) => found,
        None => {
            return Err(ParseError { message: String::from_str(COULD_NOT_PARSE) });
        },
    };
    let reference = match complete(&found, workspace) {
        Ok(reference) => reference,
        Err(e) => {
            return Err(e);
        },
    };
    if let Tier::AbsoluteUrl = found.tier {
        match parse_address(pattern) {
            Some(url) => Ok(Endpoint { url }),
            None => Err(ParseError { message: String::from_str(MALFORMED_URL) }),
        }
    } else {
        endpoint(&reference)
    }
}

/// The first shape that matches wins: a later, more permissive expression
/// never shadows an earlier one, and a pattern is refused only where none of
/// the four matches.
pub proof fn lemma_first_match_wins(pattern: Seq<char>)
    ensures
        regex_captures(ISSUE_URL@, pattern) is Some ==> tier_of(pattern) == Some(
            (Tier::AbsoluteUrl, regex_captures(ISSUE_URL@, pattern).unwrap()),
        ),
        regex_captures(ISSUE_URL@, pattern) is None && regex_captures(OWNER_REPO_ISSUE@, pattern)
            is Some ==> tier_of(pattern) == Some(
            (Tier::OwnerRepoIssue, regex_captures(OWNER_REPO_ISSUE@, pattern).unwrap()),
        ),
        regex_captures(ISSUE_URL@, pattern) is None && regex_captures(OWNER_REPO_ISSUE@, pattern)
            is None && regex_captures(REPO_ISSUE@, pattern) is Some ==> tier_of(pattern) == Some(
            (Tier::RepoIssue, regex_captures(REPO_ISSUE@, pattern).unwrap()),
        ),
        tier_of(pattern) is None <==> regex_captures(ISSUE_URL@, pattern) is None
            && regex_captures(OWNER_REPO_ISSUE@, pattern) is None && regex_captures(
            REPO_ISSUE@,
            pattern,
        ) is None && regex_captures(ISSUE@, pattern) is None,
        tier_of(pattern) is None ==> forall|
            workspace: Option<(Option<Option<Seq<char>>>, Option<Option<Seq<char>>>)>,
        | #[trigger]
            resolve_pattern(pattern, workspace) == Err::<Seq<char>, Seq<char>>(COULD_NOT_PARSE@),
{
}

/// A full URL is used as it stands, once it parses as a URL, and the
/// workspace has no say in it.
pub proof fn lemma_absolute_url_is_kept(
    pattern: Seq<char>,
    workspace: Option<(Option<Option<Seq<char>>>, Option<Option<Seq<char>>>)>,
)
    requires
        regex_captures(ISSUE_URL@, pattern) is Some,
    ensures
        ({
            let groups = regex_captures(ISSUE_URL@, pattern).unwrap();
            resolve_pattern(pattern, workspace) == match triple(
                group_text(groups, 1),
                group_text(groups, 2),
                group_text(groups, 3),
            ) {
                Some(reference) => match url_parse(pattern) {
                    Some(url) => Ok::<Seq<char>, Seq<char>>(url),
                    None => Err(MALFORMED_URL@),
                },
                None => Err(COULD_NOT_PARSE@),
            }
        }),
{
}

/// Whatever address a pattern resolves to, it resolves to a reference whose
/// organization, repository and issue number are all there and not empty.
pub proof fn lemma_endpoint_has_reference(
    pattern: Seq<char>,
    workspace: Option<(Option<Option<Seq<char>>>, Option<Option<Seq<char>>>)>,
)
    ensures
        resolve_pattern(pattern, workspace) is Ok ==> (resolve_reference(pattern, workspace)
            matches Ok(reference) && reference.0.len() > 0 && reference.1.len() > 0
            && reference.2.len() > 0),
{
}

/// A pattern that names owner, repository and number resolves to the address
/// of exactly these three, and the workspace has no say in it.
pub proof fn lemma_qualified_pattern(
    pattern: Seq<char>,
    workspace: Option<(Option<Option<Seq<char>>>, Option<Option<Seq<char>>>)>,
)
    requires
        tier_of(pattern) matches Some(found) && found.0 == Tier::OwnerRepoIssue,
    ensures
        ({
            let groups = tier_of(pattern).unwrap().1;
            resolve_pattern(pattern, workspace) == match triple(
                group_text(groups, 1),
                group_text(groups, 2),
                group_text(groups, 3),
            ) {
                Some(reference) => address_or_error(reference),
                None => Err(COULD_NOT_PARSE@),
            }
        }),
{
}

/// A pattern that names repository and number takes the organization from
/// the remotes and the repository from itself, whatever repository the
/// remotes name.
pub proof fn lemma_repository_comes_from_pattern(
    pattern: Seq<char>,
    workspace: Option<(Option<Option<Seq<char>>>, Option<Option<Seq<char>>>)>,
)
    requires
        tier_of(pattern) matches Some(found) && found.0 == Tier::RepoIssue,
        resolve_remote(workspace) is Ok,
    ensures
        ({
            let groups = tier_of(pattern).unwrap().1;
            let organization = resolve_remote(workspace)->Ok_0.0;
            resolve_pattern(pattern, workspace) == match triple(
                Some(organization),
                group_text(groups, 1),
                group_text(groups, 2),
            ) {
                Some(reference) => address_or_error(reference),
                None => Err(COULD_NOT_PARSE@),
            }
        }),
{
    crate::remote::lemma_coordinates_never_empty(workspace);
}

/// A bare number takes organization and repository from the remotes.
pub proof fn lemma_bare_number(
    pattern: Seq<char>,
    workspace: Option<(Option<Option<Seq<char>>>, Option<Option<Seq<char>>>)>,
)
    requires
        tier_of(pattern) matches Some(found) && found.0 == Tier::BareNumber,
        resolve_remote(workspace) is Ok,
    ensures
        ({
            let groups = tier_of(pattern).unwrap().1;
            let found = resolve_remote(workspace)->Ok_0;
            resolve_pattern(pattern, workspace) == match group_text(groups, 1) {
                Some(issue_number) => address_or_error((found.0, found.1, issue_number)),
                None => Err(COULD_NOT_PARSE@),
            }
        }),
{
    crate::remote::lemma_coordinates_never_empty(workspace);
}

/// A shorthand pattern fails with the remotes' own error where the remotes
/// do not resolve: without a checkout, with "no repository found".
pub proof fn lemma_shorthand_needs_remote(
    pattern: Seq<char>,
    workspace: Option<(Option<Option<Seq<char>>>, Option<Option<Seq<char>>>)>,
)
    requires
        tier_of(pattern) matches Some(found) && found.0.shorthand(),
        resolve_remote(workspace) is Err,
    ensures
        resolve_pattern(pattern, workspace) == Err::<Seq<char>, Seq<char>>(
            resolve_remote(workspace)->Err_0,
        ),
        workspace is None ==> resolve_pattern(pattern, workspace) == Err::<Seq<char>, Seq<char>>(
            crate::remote::NO_REPOSITORY@,
        ),
{
}

/// No reference lacks a field: organization, repository and issue number are
/// all there and none is empty.
pub proof fn lemma_reference_is_complete(
    tier: Tier,
    groups: Seq<Option<Seq<char>>>,
    remote: Option<(Seq<char>, Seq<char>)>,
)
    ensures
        reference_of(tier, groups, remote) matches Some(reference) ==> reference.0.len() > 0
            && reference.1.len() > 0 && reference.2.len() > 0,
{
}

} // verus!
