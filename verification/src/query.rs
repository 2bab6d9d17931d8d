//! Query strings as lists of name and value pairs. Percent-encoding and the
//! `application/x-www-form-urlencoded` syntax are the `url` crate's.

use crate::text::same_text;
use vstd::prelude::*;

verus! {

/// A name and its value.
pub type Pair = (Seq<char>, Seq<char>);

/// Content of a list of pairs.
pub open spec fn pairs_view(pairs: Seq<(String, String)>) -> Seq<Pair> {
    pairs.map_values(|p: (String, String)| (p.0@, p.1@))
}

/// The pairs that a query string decodes to, in the order in which it holds
/// them.
pub uninterp spec fn query_pairs(query: Seq<char>) -> Seq<Pair>;

/// The query string that a list of pairs is written as.
pub uninterp spec fn encoded_query(pairs: Seq<Pair>) -> Seq<char>;

/// `form_urlencoded::parse`, collected: the decoded pairs of a query string.
#[verifier::external_body]
pub(crate) fn parse_query(query: &str) -> (r: Vec<(String, String)>)
    ensures
        pairs_view(r@) == query_pairs(query@),
{
    url::form_urlencoded::parse(query.as_bytes()).into_owned().collect()
}

/// `form_urlencoded::Serializer`: the pairs written as `name=value`, joined
/// by `&`, names and values percent-encoded.
#[verifier::external_body]
pub(crate) fn encode_query(pairs: &Vec<(String, String)>) -> (r: String)
    ensures
        r@ == encoded_query(pairs_view(pairs@)),
{
    url::form_urlencoded::Serializer::new(String::new()).extend_pairs(pairs).finish()
}

/// Some pair of the list carries the name `key`.
pub open spec fn names(pairs: Seq<Pair>, key: Seq<char>) -> bool {
    exists|i: int| 0 <= i < pairs.len() && (#[trigger] pairs[i]).0 == key
}

/// Whether a pair named `key` is present.
pub fn has_key(pairs: &Vec<(String, String)>, key: &str) -> (b: bool)
    ensures
        b == names(pairs_view(pairs@), key@),
{
    let n: usize = pairs.len();
    let mut i: usize = 0;
    while i < n
        invariant
            i <= n,
            n == pairs@.len(),
            forall|j: int| 0 <= j < i ==> (#[trigger] pairs_view(pairs@)[j]).0 != key@,
        decreases n - i,
    {
        if same_text(pairs[i].0.as_str(), key) {
            assert(pairs_view(pairs@)[i as int].0 == key@);
            return true;
        }
        i += 1;
    }
    false
}

} // verus!
