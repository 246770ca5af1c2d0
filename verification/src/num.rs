//! Decimal numerals as byte sequences: parsing (for the `Content-Length`
//! header and the range query parameters) and formatting (for the
//! random-number page). A numeral parses exactly when it is nonempty, all
//! digits, and its value fits in a `u64`.

use vstd::prelude::*;

verus! {

/// An ASCII decimal digit.
pub open spec fn is_digit(b: u8) -> bool {
    48 <= b <= 57
}

/// Every byte of `s` is an ASCII decimal digit.
pub open spec fn all_digits(s: Seq<u8>) -> bool {
    forall|i: int| 0 <= i < s.len() ==> is_digit(#[trigger] s[i])
}

/// The value of `s` read as a big-endian decimal numeral.
pub open spec fn dec_val(s: Seq<u8>) -> int
    decreases s.len(),
{
    if s.len() == 0 {
        0
    } else {
        dec_val(s.drop_last()) * 10 + (s.last() - 48)
    }
}

/// What parsing a decimal numeral yields: its value, exactly when `s` is a
/// nonempty digit string whose value fits in a `u64`.
pub open spec fn spec_parse_u64(s: Seq<u8>) -> Option<u64> {
    if s.len() > 0 && all_digits(s) && dec_val(s) <= u64::MAX {
        Some(dec_val(s) as u64)
    } else {
        None
    }
}

/// A digit string has a nonnegative value.
proof fn lemma_dec_val_nonneg(s: Seq<u8>)
    requires
        all_digits(s),
    ensures
        dec_val(s) >= 0,
    decreases s.len(),
{
    if s.len() > 0 {
        assert(all_digits(s.drop_last())) by {
            assert(forall|i: int|
                0 <= i < s.len() - 1 ==> s.drop_last()[i] == #[trigger] s[i]);
        }
        lemma_dec_val_nonneg(s.drop_last());
    }
}

/// Extending a digit string to the right never lowers its value.
proof fn lemma_dec_val_prefix_bound(s: Seq<u8>, i: int)
    requires
        all_digits(s),
        0 <= i <= s.len(),
    ensures
        dec_val(s.take(i)) <= dec_val(s),
    decreases s.len() - i,
{
    if i < s.len() {
        assert(all_digits(s.take(i + 1))) by {
            assert(forall|j: int|
                0 <= j < i + 1 ==> s.take(i + 1)[j] == #[trigger] s[j]);
        }
        assert(s.take(i + 1).drop_last() =~= s.take(i));
        assert(s.take(i + 1).last() == s[i]);
        assert(all_digits(s.take(i))) by {
            assert(forall|j: int| 0 <= j < i ==> s.take(i)[j] == #[trigger] s[j]);
        }
        lemma_dec_val_nonneg(s.take(i));
        assert(dec_val(s.take(i)) <= dec_val(s.take(i + 1)));
        lemma_dec_val_prefix_bound(s, i + 1);
    } else {
        assert(s.take(i) =~= s);
    }
}

/// Parses a decimal numeral, returning `None` on an empty string, a
/// non-digit byte, or a value that does not fit in a `u64`.
pub fn parse_u64(s: &Vec<u8>) -> (r: Option<u64>)
    ensures
        r == spec_parse_u64(s@),
{
    if s.len() == 0 {
        return None;
    }
    let mut acc: u64 = 0;
    let mut i: usize = 0;
    while i < s.len()
        invariant
            0 <= i <= s@.len(),
            s@.len() > 0,
            all_digits(s@.take(i as int)),
            acc == dec_val(s@.take(i as int)),
        decreases s@.len() - i,
    {
        let b = s[i];
        if b < 48 || b > 57 {
            assert(!all_digits(s@));
            return None;
        }
        let d = (b - 48) as u64;
        proof {
            assert(s@.take(i as int + 1).drop_last() =~= s@.take(i as int));
            assert(s@.take(i as int + 1).last() == s@[i as int]);
            assert(all_digits(s@.take(i as int + 1))) by {
                assert(forall|j: int|
                    0 <= j < i as int + 1 ==> s@.take(i as int + 1)[j] == #[trigger] s@[j]);
            }
        }
        if acc > u64::MAX / 10 || (acc == u64::MAX / 10 && d > u64::MAX % 10) {
            proof {
                assert(dec_val(s@.take(i as int + 1)) > u64::MAX);
                if all_digits(s@) {
                    lemma_dec_val_prefix_bound(s@, i as int + 1);
                }
            }
            return None;
        }
        acc = acc * 10 + d;
        i += 1;
    }
    proof {
        assert(s@.take(s@.len() as int) =~= s@);
    }
    Some(acc)
}

/// The decimal rendering of `n`, most significant digit first, no sign and
/// no leading zero (a single `0` for zero).
pub open spec fn u64_to_dec(n: nat) -> Seq<u8>
    decreases n,
{
    if n < 10 {
        seq![(n + 48) as u8]
    } else {
        u64_to_dec(n / 10) + seq![(n % 10 + 48) as u8]
    }
}

/// A rendered numeral reads back as the number it was rendered from: the
/// formatter and the parser are inverse on every `u64`.
pub proof fn lemma_u64_to_dec_parses_back(n: u64)
    ensures
        spec_parse_u64(u64_to_dec(n as nat)) == Some(n),
    decreases n,
{
    lemma_u64_to_dec_shape(n as nat);
    assert(dec_val(u64_to_dec(n as nat)) == n);
}

/// The rendering of `n` is nonempty, all digits, and has value `n`.
proof fn lemma_u64_to_dec_shape(n: nat)
    ensures
        u64_to_dec(n).len() > 0,
        all_digits(u64_to_dec(n)),
        dec_val(u64_to_dec(n)) == n,
    decreases n,
{
    if n < 10 {
        let s = u64_to_dec(n);
        assert(s.drop_last() =~= Seq::<u8>::empty());
        assert(dec_val(Seq::<u8>::empty()) == 0);
        assert(s.last() == (n + 48) as u8);
        assert(dec_val(s) == 0 * 10 + ((n + 48) as u8 - 48));
        assert(dec_val(s) == n);
    } else {
        lemma_u64_to_dec_shape(n / 10);
        let head = u64_to_dec(n / 10);
        let s = u64_to_dec(n);
        assert(s.drop_last() =~= head);
        assert(s.last() == (n % 10 + 48) as u8);
        assert(all_digits(s)) by {
            assert(forall|i: int| 0 <= i < head.len() ==> s[i] == #[trigger] head[i]);
        }
        assert(dec_val(s) == dec_val(head) * 10 + ((n % 10 + 48) as u8 - 48));
        assert(dec_val(s) == (n / 10) * 10 + n % 10);
        assert(dec_val(s) == n);
    }
}

/// Renders `n` in decimal.
pub fn fmt_u64(n: u64) -> (r: Vec<u8>)
    ensures
        r@ == u64_to_dec(n as nat),
    decreases n,
{
    if n < 10 {
        let mut v: Vec<u8> = Vec::new();
        v.push((n as u8) + 48);
        assert(v@ =~= u64_to_dec(n as nat));
        v
    } else {
        let mut v = fmt_u64(n / 10);
        v.push(((n % 10) as u8) + 48);
        assert(v@ =~= u64_to_dec(n as nat));
        v
    }
}

} // verus!
