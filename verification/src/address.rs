//! Web addresses, the one place where the URL parser is called.

use url::Url;
use vstd::prelude::*;

verus! {

/// The serialization of `text` parsed as an absolute URL; `None` where it
/// does not parse.
pub uninterp spec fn url_parse(text: Seq<char>) -> Option<Seq<char>>;

/// The serialization of `reference` resolved against the URL that `base`
/// parses to; `None` where either step is refused.
pub uninterp spec fn url_join(base: Seq<char>, reference: Seq<char>) -> Option<Seq<char>>;

/// Calls `url::Url::parse` and hands the URL back as its serialization.
/// Nothing is proved of the parser: the contract only gives the outcome the
/// name `url_parse`, and trusts that the same text always gives the same one.
#[verifier::external_body]
pub(crate) fn parse_address(text: &str) -> (r: Option<String>)
    ensures
        crate::model::text_of(r) == url_parse(text@),
{
    Url::parse(text).ok().map(String::from)
}

/// Calls `url::Url::parse` on `base` and `Url::join` with `reference` on the
/// result, and hands the URL back as its serialization. Nothing is proved of
/// the join: the contract only gives the outcome the name `url_join`, and
/// trusts that the same two texts always give the same one.
#[verifier::external_body]
pub(crate) fn join_address(base: &str, reference: &str) -> (r: Option<String>)
    ensures
        crate::model::text_of(r) == url_join(base@, reference@),
{
    Url::parse(base).ok()?.join(reference).ok().map(String::from)
}

} // verus!
