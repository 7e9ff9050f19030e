use blocked::matching::group;
use blocked::model::{Endpoint, IssueReference, ParseError, RepoCoordinates};
use blocked::pattern::{
    classify, complete, endpoint, non_empty, parse_issue_pattern, parse_issue_reference,
    pattern_needs_remote, reference_from_captures, PatternMatch, Tier,
};
use blocked::remote::{
    coordinates_from_captures, parse_remote_url, select_remote, try_get_org_repo, RemoteEntry,
    Remotes,
};

fn text(s: &str) -> Option<String> {
    Some(s.to_string())
}

fn workspace(upstream: RemoteEntry, origin: RemoteEntry) -> Option<Remotes> {
    Some(Remotes { upstream, origin })
}

fn acme() -> Option<Remotes> {
    workspace(
        RemoteEntry::Absent,
        RemoteEntry::Url("https://github.com/acme/widgets.git".to_string()),
    )
}

fn address(url: &str) -> Result<Endpoint, ParseError> {
    Ok(Endpoint { url: url.to_string() })
}

fn refusal(message: &str) -> Result<Endpoint, ParseError> {
    Err(ParseError { message: message.to_string() })
}

#[test]
fn full_url_is_used_as_it_stands() {
    assert_eq!(
        parse_issue_pattern("https://github.com/serde-rs/serde/issues/423", &None),
        address("https://github.com/serde-rs/serde/issues/423")
    );
    assert_eq!(
        parse_issue_pattern("http://github.com/serde-rs/serde/issues/423", &acme()),
        address("http://github.com/serde-rs/serde/issues/423")
    );
}

#[test]
fn owner_repo_hash_number() {
    assert_eq!(
        parse_issue_pattern("serde-rs/serde#423", &None),
        address("https://api.github.com/repos/serde-rs/serde/issues/423")
    );
}

#[test]
fn owner_repo_slash_number() {
    assert_eq!(
        parse_issue_pattern("serde-rs/serde/423", &None),
        address("https://api.github.com/repos/serde-rs/serde/issues/423")
    );
}

#[test]
fn qualified_pattern_ignores_the_remotes() {
    assert_eq!(
        parse_issue_pattern("serde-rs/serde#423", &acme()),
        address("https://api.github.com/repos/serde-rs/serde/issues/423")
    );
    assert!(!pattern_needs_remote("serde-rs/serde#423"));
    assert!(!pattern_needs_remote("https://github.com/serde-rs/serde/issues/423"));
}

#[test]
fn repo_hash_number_takes_the_organization_from_the_remote() {
    assert_eq!(
        parse_issue_pattern("serde#423", &acme()),
        address("https://api.github.com/repos/acme/serde/issues/423")
    );
    assert!(pattern_needs_remote("serde#423"));
}

#[test]
fn repo_slash_number_resolves_in_the_repo_tier() {
    assert_eq!(classify("serde/423").map(|m| m.tier), Some(Tier::RepoIssue));
    assert_eq!(
        parse_issue_pattern("serde/423", &acme()),
        address("https://api.github.com/repos/acme/serde/issues/423")
    );
}

#[test]
fn bare_number_takes_both_from_the_remote() {
    assert_eq!(
        parse_issue_pattern("423", &acme()),
        address("https://api.github.com/repos/acme/widgets/issues/423")
    );
    assert_eq!(
        parse_issue_pattern("#423", &acme()),
        address("https://api.github.com/repos/acme/widgets/issues/423")
    );
    assert!(pattern_needs_remote("423"));
}

#[test]
fn tiers_in_order() {
    assert_eq!(
        classify("https://github.com/serde-rs/serde/issues/423").map(|m| m.tier),
        Some(Tier::AbsoluteUrl)
    );
    assert_eq!(classify("serde-rs/serde#423").map(|m| m.tier), Some(Tier::OwnerRepoIssue));
    assert_eq!(classify("serde#423").map(|m| m.tier), Some(Tier::RepoIssue));
    assert_eq!(classify("#423").map(|m| m.tier), Some(Tier::BareNumber));
    assert_eq!(classify("no digits here"), None);
}

#[test]
fn captured_groups_come_in_order() {
    let found = classify("serde-rs/serde#423").unwrap();
    assert_eq!(
        found.groups,
        vec![text("serde-rs/serde#423"), text("serde-rs"), text("serde"), text("423")]
    );
    let found = classify("see #17 for more").unwrap();
    assert_eq!(found.tier, Tier::BareNumber);
    assert_eq!(found.groups, vec![text("#17"), text("17")]);
}

#[test]
fn pattern_without_a_tier_is_refused() {
    assert_eq!(parse_issue_pattern("", &acme()), refusal("could not parse issue pattern"));
    assert_eq!(parse_issue_pattern("serde", &acme()), refusal("could not parse issue pattern"));
    assert!(!pattern_needs_remote("serde"));
}

#[test]
fn bare_number_without_a_repository() {
    assert_eq!(parse_issue_pattern("42", &None), refusal("no repository found"));
}

#[test]
fn shorthand_without_a_remote() {
    let empty = workspace(RemoteEntry::Absent, RemoteEntry::Absent);
    assert_eq!(parse_issue_pattern("42", &empty), refusal("no upstream or origin remote"));
    assert_eq!(parse_issue_pattern("serde#42", &empty), refusal("no upstream or origin remote"));
}

#[test]
fn shorthand_with_an_unparseable_remote() {
    let odd = workspace(RemoteEntry::Url("/srv/git/widgets".to_string()), RemoteEntry::Absent);
    assert_eq!(parse_issue_pattern("42", &odd), refusal("unparseable remote URL"));
}

#[test]
fn url_that_does_not_parse() {
    assert_eq!(
        parse_issue_pattern("::https://github.com/serde-rs/serde/issues/423", &None),
        refusal("issue URL is not a well-formed URL")
    );
}

#[test]
fn endpoint_joins_the_three_parts() {
    let reference = IssueReference {
        organization: "acme".to_string(),
        repository: "widgets".to_string(),
        issue_number: "7".to_string(),
    };
    assert_eq!(endpoint(&reference), address("https://api.github.com/repos/acme/widgets/issues/7"));
}

#[test]
fn endpoint_that_does_not_join() {
    let reference = IssueReference {
        organization: "//[".to_string(),
        repository: "widgets".to_string(),
        issue_number: "7".to_string(),
    };
    assert_eq!(endpoint(&reference), refusal("could not build the issue address"));
}

#[test]
fn reference_from_given_groups() {
    let groups = vec![text("a/b#1"), text("a"), text("b"), text("1")];
    let expected = IssueReference {
        organization: "a".to_string(),
        repository: "b".to_string(),
        issue_number: "1".to_string(),
    };
    assert_eq!(reference_from_captures(Tier::OwnerRepoIssue, &groups, None), Some(expected.clone()));
    assert_eq!(reference_from_captures(Tier::AbsoluteUrl, &groups, None), Some(expected));

    let remote = RepoCoordinates { organization: "acme".to_string(), repository: "widgets".to_string() };
    let groups = vec![text("b#1"), text("b"), text("1")];
    assert_eq!(
        reference_from_captures(Tier::RepoIssue, &groups, Some(remote.clone())),
        Some(IssueReference {
            organization: "acme".to_string(),
            repository: "b".to_string(),
            issue_number: "1".to_string(),
        })
    );
    assert_eq!(reference_from_captures(Tier::RepoIssue, &groups, None), None);

    let groups = vec![text("#1"), text("1")];
    assert_eq!(
        reference_from_captures(Tier::BareNumber, &groups, Some(remote)),
        Some(IssueReference {
            organization: "acme".to_string(),
            repository: "widgets".to_string(),
            issue_number: "1".to_string(),
        })
    );
}

#[test]
fn reference_needs_every_field() {
    let groups = vec![text("a/b#1"), text("a"), None, text("1")];
    assert_eq!(reference_from_captures(Tier::OwnerRepoIssue, &groups, None), None);
    let groups = vec![text("a/b#1"), text("a"), text(""), text("1")];
    assert_eq!(reference_from_captures(Tier::OwnerRepoIssue, &groups, None), None);
    let groups = vec![text("1")];
    let remote = RepoCoordinates { organization: String::new(), repository: "w".to_string() };
    assert_eq!(reference_from_captures(Tier::BareNumber, &groups, Some(remote)), None);
}

#[test]
fn group_by_index() {
    let groups = vec![text("ab"), None, text(""), text("b")];
    assert_eq!(group(&groups, 0), text("ab"));
    assert_eq!(group(&groups, 1), None);
    assert_eq!(group(&groups, 2), None);
    assert_eq!(group(&groups, 3), text("b"));
    assert_eq!(group(&groups, 4), None);
}

#[test]
fn remote_url_in_both_encodings() {
    let expected = RepoCoordinates { organization: "acme".to_string(), repository: "widgets".to_string() };
    assert_eq!(parse_remote_url("https://example.com/acme/widgets.git"), Ok(expected.clone()));
    assert_eq!(parse_remote_url("git@example.com:acme/widgets.git"), Ok(expected));
}

#[test]
fn remote_url_in_another_form() {
    let refused = Err(ParseError { message: "unparseable remote URL".to_string() });
    assert_eq!(parse_remote_url("/srv/git/widgets"), refused);
    assert_eq!(parse_remote_url("https://example.com/acme/widgets"), refused);
    assert_eq!(parse_remote_url(""), refused);
}

#[test]
fn coordinates_from_given_groups() {
    let https = vec![text("x"), text("acme"), text("widgets"), None, None];
    let ssh = vec![text("x"), None, None, text("acme"), text("widgets")];
    let expected = RepoCoordinates { organization: "acme".to_string(), repository: "widgets".to_string() };
    assert_eq!(coordinates_from_captures(&https), Some(expected.clone()));
    assert_eq!(coordinates_from_captures(&ssh), Some(expected));
    assert_eq!(coordinates_from_captures(&vec![text("x"), text("acme"), None, None, None]), None);
    assert_eq!(coordinates_from_captures(&vec![]), None);
}

#[test]
fn upstream_is_preferred_to_origin() {
    let both = Remotes {
        upstream: RemoteEntry::Url("https://github.com/up/stream.git".to_string()),
        origin: RemoteEntry::Url("https://github.com/ori/gin.git".to_string()),
    };
    assert_eq!(select_remote(&both), &both.upstream);
    assert_eq!(
        try_get_org_repo(&Some(both.clone())),
        Ok(RepoCoordinates { organization: "up".to_string(), repository: "stream".to_string() })
    );
    assert_eq!(
        parse_issue_pattern("9", &Some(both)),
        address("https://api.github.com/repos/up/stream/issues/9")
    );
}

#[test]
fn origin_is_the_fallback() {
    let only_origin = Remotes {
        upstream: RemoteEntry::Absent,
        origin: RemoteEntry::Url("git@github.com:ori/gin.git".to_string()),
    };
    assert_eq!(select_remote(&only_origin), &only_origin.origin);
    assert_eq!(
        try_get_org_repo(&Some(only_origin)),
        Ok(RepoCoordinates { organization: "ori".to_string(), repository: "gin".to_string() })
    );
}

#[test]
fn upstream_that_cannot_be_read_is_not_skipped() {
    let remotes = Remotes {
        upstream: RemoteEntry::Unreadable,
        origin: RemoteEntry::Url("git@github.com:ori/gin.git".to_string()),
    };
    assert_eq!(
        try_get_org_repo(&Some(remotes)),
        Err(ParseError { message: "unparseable remote URL".to_string() })
    );
}

#[test]
fn resolver_errors() {
    assert_eq!(
        try_get_org_repo(&None),
        Err(ParseError { message: "no repository found".to_string() })
    );
    assert_eq!(
        try_get_org_repo(&workspace(RemoteEntry::Absent, RemoteEntry::Absent)),
        Err(ParseError { message: "no upstream or origin remote".to_string() })
    );
}

fn reference(organization: &str, repository: &str, issue_number: &str) -> IssueReference {
    IssueReference {
        organization: organization.to_string(),
        repository: repository.to_string(),
        issue_number: issue_number.to_string(),
    }
}

#[test]
fn full_url_is_normalised_by_parsing() {
    assert_eq!(
        parse_issue_pattern("https://github.com/serde-rs/serde/issues/423 ", &None),
        address("https://github.com/serde-rs/serde/issues/423")
    );
}

#[test]
fn reference_of_each_shape() {
    assert_eq!(
        parse_issue_reference("https://github.com/serde-rs/serde/issues/423", &None),
        Ok(reference("serde-rs", "serde", "423"))
    );
    assert_eq!(
        parse_issue_reference("serde-rs/serde#423", &None),
        Ok(reference("serde-rs", "serde", "423"))
    );
    assert_eq!(
        parse_issue_reference("serde-rs/serde/423", &acme()),
        Ok(reference("serde-rs", "serde", "423"))
    );
    assert_eq!(parse_issue_reference("serde#423", &acme()), Ok(reference("acme", "serde", "423")));
    assert_eq!(parse_issue_reference("serde/423", &acme()), Ok(reference("acme", "serde", "423")));
    assert_eq!(parse_issue_reference("#423", &acme()), Ok(reference("acme", "widgets", "423")));
    assert_eq!(parse_issue_reference("423", &acme()), Ok(reference("acme", "widgets", "423")));
}

#[test]
fn reference_errors() {
    assert_eq!(
        parse_issue_reference("nothing", &acme()),
        Err(ParseError { message: "could not parse issue pattern".to_string() })
    );
    assert_eq!(
        parse_issue_reference("423", &None),
        Err(ParseError { message: "no repository found".to_string() })
    );
}

#[test]
fn complete_reads_the_remotes_only_for_shorthand() {
    let qualified = PatternMatch {
        tier: Tier::OwnerRepoIssue,
        groups: vec![text("a/b#1"), text("a"), text("b"), text("1")],
    };
    assert_eq!(complete(&qualified, &None), Ok(reference("a", "b", "1")));
    let bare = PatternMatch { tier: Tier::BareNumber, groups: vec![text("1"), text("1")] };
    assert_eq!(
        complete(&bare, &None),
        Err(ParseError { message: "no repository found".to_string() })
    );
    assert_eq!(complete(&bare, &acme()), Ok(reference("acme", "widgets", "1")));
    let short = PatternMatch { tier: Tier::BareNumber, groups: vec![text("1")] };
    assert_eq!(
        complete(&short, &acme()),
        Err(ParseError { message: "could not parse issue pattern".to_string() })
    );
}

#[test]
fn empty_text_is_no_text() {
    assert_eq!(non_empty(String::new()), None);
    assert_eq!(non_empty("a".to_string()), text("a"));
}

#[test]
fn tier_knows_whether_it_is_shorthand() {
    assert!(!Tier::AbsoluteUrl.needs_remote());
    assert!(!Tier::OwnerRepoIssue.needs_remote());
    assert!(Tier::RepoIssue.needs_remote());
    assert!(Tier::BareNumber.needs_remote());
}
