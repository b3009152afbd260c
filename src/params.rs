//! Query-string parameters: decoding and lookup, where the last occurrence of
//! a repeated key wins.

use vstd::prelude::*;
use vstd::string::*;

verus! {

/// The (name, value) pairs that form-urlencoded decoding gives for the
/// bytes of a query string, in their order.
pub uninterp spec fn form_pairs(input: Seq<u8>) -> Seq<(Seq<char>, Seq<char>)>;

pub open spec fn pairs_view(pairs: Seq<(String, String)>) -> Seq<(Seq<char>, Seq<char>)> {
    pairs.map_values(|p: (String, String)| (p.0@, p.1@))
}

/// Relies on url::form_urlencoded::parse (with `into_owned`): the percent-
/// and plus-decoded pairs of a query string, in order; empty input has none.
#[verifier::external_body]
fn decode_form(input: &[u8]) -> (r: Vec<(String, String)>)
    ensures
        pairs_view(r@) == form_pairs(input@),
        input@.len() == 0 ==> r@.len() == 0,
{
    url::form_urlencoded::parse(input).into_owned().collect()
}

/// The value of the last pair whose name is `key`.
pub open spec fn last_value(pairs: Seq<(Seq<char>, Seq<char>)>, key: Seq<char>) -> Option<
    Seq<char>,
>
    decreases pairs.len(),
{
    if pairs.len() == 0 {
        None
    } else if pairs.last().0 == key {
        Some(pairs.last().1)
    } else {
        last_value(pairs.drop_last(), key)
    }
}

/// The pairs of an optional query string.
pub open spec fn query_pairs(query: Option<Seq<u8>>) -> Seq<(Seq<char>, Seq<char>)> {
    match query {
        Some(q) => form_pairs(q),
        None => Seq::empty(),
    }
}

pub open spec fn opt_bytes(query: Option<&str>) -> Option<Seq<u8>> {
    match query {
        Some(q) => Some(q.spec_bytes()),
        None => None,
    }
}

/// The decoded pairs of the query string, if the request has one.
pub fn get_query_params(query: Option<&str>) -> (r: Vec<(String, String)>)
    ensures
        pairs_view(r@) == query_pairs(opt_bytes(query)),
{
    match query {
        Some(q) => decode_form(q.as_bytes()),
        None => {
            let r: Vec<(String, String)> = Vec::new();
            assert(pairs_view(r@) =~= Seq::empty());
            r
        },
    }
}

/// The value of the last parameter named `key`; earlier repetitions are
/// overridden.
pub fn find_last(pairs: &Vec<(String, String)>, key: &String) -> (r: Option<String>)
    ensures
        match last_value(pairs_view(pairs@), key@) {
            Some(v) => r is Some && r->Some_0@ == v,
            None => r is None,
        },
{
    let ghost all = pairs_view(pairs@);
    let mut i: usize = pairs.len();
    assert(all.subrange(0, i as int) =~= all);
    while i > 0
        invariant
            i <= pairs@.len(),
            all == pairs_view(pairs@),
            last_value(all, key@) == last_value(all.subrange(0, i as int), key@),
        decreases i,
    {
        let ghost front = all.subrange(0, i as int);
        assert(front.drop_last() =~= all.subrange(0, i - 1));
        assert(front.last() == (pairs@[i - 1].0@, pairs@[i - 1].1@));
        if pairs[i - 1].0 == *key {
            return Some(pairs[i - 1].1.clone());
        }
        i = i - 1;
    }
    assert(all.subrange(0, 0) =~= Seq::<(Seq<char>, Seq<char>)>::empty());
    None
}

} // verus!
