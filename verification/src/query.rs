//! The query-string grammar of the random-number route: pairs separated by
//! `&`, each `key=value` (a pair without `=` has the empty value). Lookup
//! takes the first pair of a given key; the range is the pair of `start`
//! and `end`, both decimal numerals.

use vstd::prelude::*;

use crate::bytes::{bytes_eq, key_end, key_end_vec, key_start, key_start_vec};
use crate::num::{parse_u64, spec_parse_u64};

verus! {

pub const AMP: u8 = 38;

pub const EQUALS: u8 = 61;

/// The first position in `[i, end)` holding `b`, or `end` when none does.
pub open spec fn find_from(s: Seq<u8>, b: u8, i: int, end: int) -> int
    decreases end - i,
{
    if !(0 <= i && i < end && end <= s.len()) {
        end
    } else if s[i] == b {
        i
    } else {
        find_from(s, b, i + 1, end)
    }
}

/// `find_from` stays within `[i, end]`.
proof fn lemma_find_from_bounds(s: Seq<u8>, b: u8, i: int, end: int)
    requires
        0 <= i <= end <= s.len(),
    ensures
        i <= find_from(s, b, i, end) <= end,
    decreases end - i,
{
    if i < end && s[i] != b {
        lemma_find_from_bounds(s, b, i + 1, end);
    }
}

/// The value of the first pair at or after `i` whose key is `key`, scanning
/// pair by pair.
pub open spec fn spec_query_lookup_from(q: Seq<u8>, key: Seq<u8>, i: int) -> Option<Seq<u8>>
    decreases q.len() - i,
    when 0 <= i <= q.len()
    via spec_query_lookup_from_decreases
{
    let amp = find_from(q, AMP, i, q.len() as int);
    let eq = find_from(q, EQUALS, i, amp);
    let k = q.subrange(i, eq);
    let v = if eq < amp {
        q.subrange(eq + 1, amp)
    } else {
        Seq::<u8>::empty()
    };
    if k == key {
        Some(v)
    } else if amp < q.len() {
        spec_query_lookup_from(q, key, amp + 1)
    } else {
        None
    }
}

#[via_fn]
proof fn spec_query_lookup_from_decreases(q: Seq<u8>, key: Seq<u8>, i: int) {
    lemma_find_from_bounds(q, AMP, i, q.len() as int);
}

/// The value of the first pair whose key is `key`, or `None`.
pub open spec fn spec_query_lookup(q: Seq<u8>, key: Seq<u8>) -> Option<Seq<u8>> {
    spec_query_lookup_from(q, key, 0)
}

/// The parsed range of a query string: the values of `start` and `end`,
/// exactly when both pairs are present and both are decimal numerals.
pub open spec fn spec_parse_range(q: Seq<u8>) -> Option<(u64, u64)> {
    match spec_query_lookup(q, key_start()) {
        Some(sv) => match spec_query_lookup(q, key_end()) {
            Some(ev) => match spec_parse_u64(sv) {
                Some(s) => match spec_parse_u64(ev) {
                    Some(e) => Some((s, e)),
                    None => None,
                },
                None => None,
            },
            None => None,
        },
        None => None,
    }
}

/// The first position in `[i, end)` holding `b`, or `end`.
fn find_from_exec(s: &Vec<u8>, b: u8, i: usize, end: usize) -> (r: usize)
    requires
        i <= end <= s@.len(),
    ensures
        r == find_from(s@, b, i as int, end as int),
        i <= r <= end,
{
    let mut j = i;
    while j < end
        invariant
            i <= j <= end <= s@.len(),
            find_from(s@, b, i as int, end as int) == find_from(s@, b, j as int, end as int),
        decreases end - j,
    {
        if s[j] == b {
            return j;
        }
        j += 1;
    }
    j
}

/// Copies `s[i..j]` out as a vector.
fn subvec(s: &Vec<u8>, i: usize, j: usize) -> (r: Vec<u8>)
    requires
        i <= j <= s@.len(),
    ensures
        r@ == s@.subrange(i as int, j as int),
{
    let mut v: Vec<u8> = Vec::new();
    let mut k = i;
    assert(v@ =~= s@.subrange(i as int, i as int));
    while k < j
        invariant
            i <= k <= j <= s@.len(),
            v@ == s@.subrange(i as int, k as int),
        decreases j - k,
    {
        proof {
            assert(s@.subrange(i as int, k as int + 1) =~= s@.subrange(i as int, k as int)
                + seq![s@[k as int]]);
        }
        v.push(s[k]);
        k += 1;
    }
    v
}

/// Looks the key up in the query string, first pair wins.
pub fn query_lookup(q: &Vec<u8>, key: &Vec<u8>) -> (r: Option<Vec<u8>>)
    ensures
        match r {
            Some(v) => spec_query_lookup(q@, key@) == Some(v@),
            None => spec_query_lookup(q@, key@) is None,
        },
{
    let mut i: usize = 0;
    loop
        invariant
            0 <= i <= q@.len(),
            spec_query_lookup_from(q@, key@, i as int) == spec_query_lookup(q@, key@),
        decreases q@.len() - i,
    {
        let amp = find_from_exec(q, AMP, i, q.len());
        let eq = find_from_exec(q, EQUALS, i, amp);
        let k = subvec(q, i, eq);
        if bytes_eq(&k, key) {
            let v = if eq < amp {
                subvec(q, eq + 1, amp)
            } else {
                Vec::new()
            };
            assert(v@ =~= if eq < amp {
                q@.subrange(eq as int + 1, amp as int)
            } else {
                Seq::<u8>::empty()
            });
            return Some(v);
        } else if amp < q.len() {
            i = amp + 1;
        } else {
            return None;
        }
    }
}

/// Parses the `start` and `end` parameters; `None` when either is missing
/// or not a numeral.
pub fn parse_range(q: &Vec<u8>) -> (r: Option<(u64, u64)>)
    ensures
        r == spec_parse_range(q@),
{
    let start_key = key_start_vec();
    let end_key = key_end_vec();
    let sv = match query_lookup(q, &start_key) {
        Some(v) => v,
        None => {
            return None;
        },
    };
    let ev = match query_lookup(q, &end_key) {
        Some(v) => v,
        None => {
            return None;
        },
    };
    let s = match parse_u64(&sv) {
        Some(n) => n,
        None => {
            return None;
        },
    };
    let e = match parse_u64(&ev) {
        Some(n) => n,
        None => {
            return None;
        },
    };
    Some((s, e))
}

} // verus!
