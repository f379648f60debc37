//! The source locator in a connection's resource path.

use vstd::prelude::*;
use vstd::string::StringExecFns;

verus! {

/// The address against which a resource path is resolved. Only the query of
/// the resolved address matters; the host is never contacted.
pub const BASE: &'static str = "ws://127.0.0.1";

/// The name of the query parameter that holds the source locator.
pub const PARAMETER: &'static str = "url";

/// The query pairs of `reference` resolved against `base`, as the `url`
/// crate parses them: names and values decoded, in the order of the query.
/// `None` where `base` is no absolute address or `reference` cannot be
/// resolved against it.
pub uninterp spec fn resolved_query_pairs(base: Seq<char>, reference: Seq<char>) -> Option<
    Seq<(Seq<char>, Seq<char>)>,
>;

/// The views of a list of name and value pairs, in order.
pub open spec fn pairs_of(list: Seq<(String, String)>) -> Seq<(Seq<char>, Seq<char>)> {
    list.map_values(|pair: (String, String)| (pair.0@, pair.1@))
}

/// The view of an optional string.
pub open spec fn text_of(text: Option<String>) -> Option<Seq<char>> {
    match text {
        Some(text) => Some(text@),
        None => None,
    }
}

/// Resolves `reference` against `base` with `url::Url::parse` and
/// `url::Url::join`, and collects what `url::Url::query_pairs` yields for
/// the result.
///
/// Trusted: that the three calls compute a function of the two texts alone,
/// which `resolved_query_pairs` names. Nothing is claimed of what that
/// function is on any given text.
#[verifier::external_body]
fn query_pairs(base: &str, reference: &str) -> (pairs: Option<Vec<(String, String)>>)
    ensures
        match pairs {
            Some(list) => resolved_query_pairs(base@, reference@) == Some(pairs_of(list@)),
            None => resolved_query_pairs(base@, reference@) is None,
        },
{
    let base = url::Url::parse(base).ok()?;
    let resolved = base.join(reference).ok()?;
    Some(resolved.query_pairs().into_owned().collect())
}

/// The value of the first pair in `pairs` whose name is `name`.
pub open spec fn first_value(pairs: Seq<(Seq<char>, Seq<char>)>, name: Seq<char>) -> Option<
    Seq<char>,
>
    decreases pairs.len(),
{
    if pairs.len() == 0 {
        None
    } else if pairs.first().0 == name {
        Some(pairs.first().1)
    } else {
        first_value(pairs.drop_first(), name)
    }
}

/// `first_value` finds a pair named `name` exactly when there is one, and
/// then it is the earliest.
pub proof fn lemma_first_value(pairs: Seq<(Seq<char>, Seq<char>)>, name: Seq<char>)
    ensures
        match first_value(pairs, name) {
            Some(value) => exists|i: int|
                0 <= i < pairs.len() && #[trigger] pairs[i].0 == name && pairs[i].1 == value
                    && forall|j: int| 0 <= j < i ==> #[trigger] pairs[j].0 != name,
            None => forall|j: int| 0 <= j < pairs.len() ==> #[trigger] pairs[j].0 != name,
        },
    decreases pairs.len(),
{
    if pairs.len() > 0 && pairs.first().0 != name {
        let rest = pairs.drop_first();
        lemma_first_value(rest, name);
        match first_value(rest, name) {
            Some(value) => {
                let i = choose|i: int|
                    0 <= i < rest.len() && #[trigger] rest[i].0 == name && rest[i].1 == value
                        && forall|j: int| 0 <= j < i ==> #[trigger] rest[j].0 != name;
                assert forall|j: int| 0 <= j < i + 1 implies #[trigger] pairs[j].0 != name by {
                    if j > 0 {
                        assert(rest[j - 1].0 != name);
                    }
                }
            },
            None => {
                assert forall|j: int| 0 <= j < pairs.len() implies #[trigger] pairs[j].0
                    != name by {
                    if j > 0 {
                        assert(rest[j - 1].0 != name);
                    }
                }
            },
        }
    }
}

/// The source locator among the query pairs of a resource path: the value
/// of the first pair named `url`, unchanged.
pub fn find_source(pairs: &Vec<(String, String)>) -> (source: Option<String>)
    ensures
        text_of(source) == first_value(pairs_of(pairs@), PARAMETER@),
{
    let name = String::from_str(PARAMETER);
    let ghost all = pairs_of(pairs@);
    let mut i: usize = 0;
    assert(all.skip(0) =~= all);
    while i < pairs.len()
        invariant
            i <= pairs.len(),
            all == pairs_of(pairs@),
            name@ == PARAMETER@,
            first_value(all, PARAMETER@) == first_value(all.skip(i as int), PARAMETER@),
        decreases pairs.len() - i,
    {
        assert(all.skip(i as int).drop_first() =~= all.skip(i + 1));
        if pairs[i].0 == name {
            return Some(pairs[i].1.clone());
        }
        i += 1;
    }
    None
}

/// The source locator that a resource path names, if it names one.
pub open spec fn source_in(resource: Seq<char>) -> Option<Seq<char>> {
    match resolved_query_pairs(BASE@, resource) {
        Some(pairs) => first_value(pairs, PARAMETER@),
        None => None,
    }
}

/// Looks for the source locator in the resource path of a connection.
///
/// The path is resolved against [`BASE`]; of the query pairs of the result
/// the first one named `url` gives the locator. A path that cannot be
/// resolved, or has no such pair, names no source.
pub fn source_from_resource(resource: &str) -> (source: Option<String>)
    ensures
        text_of(source) == source_in(resource@),
{
    match query_pairs(BASE, resource) {
        Some(pairs) => find_source(&pairs),
        None => None,
    }
}

} // verus!
