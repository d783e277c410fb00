//! Byte-string helpers shared by the command grammar: comparison, prefix
//! tests, searching, and decimal conversion.

use vstd::prelude::*;

verus! {

/// True iff the two byte strings hold the same bytes.
pub fn bytes_eq(a: &[u8], b: &[u8]) -> (r: bool)
    ensures
        r <==> a@ == b@,
{
    if a.len() != b.len() {
        assert(a@.len() != b@.len());
        return false;
    }
    let mut i: usize = 0;
    while i < a.len()
        invariant
            i <= a@.len(),
            a@.len() == b@.len(),
            forall|j: int| 0 <= j < i ==> a@[j] == b@[j],
        decreases a@.len() - i,
    {
        if a[i] != b[i] {
            return false;
        }
        i = i + 1;
    }
    assert(a@ =~= b@);
    true
}

/// True iff `s` begins with `pref`.
pub open spec fn spec_starts_with(s: Seq<u8>, pref: Seq<u8>) -> bool {
    s.len() >= pref.len() && s.subrange(0, pref.len() as int) == pref
}

pub fn starts_with(s: &[u8], pref: &[u8]) -> (r: bool)
    ensures
        r <==> spec_starts_with(s@, pref@),
{
    if s.len() < pref.len() {
        return false;
    }
    let mut i: usize = 0;
    while i < pref.len()
        invariant
            i <= pref@.len(),
            s@.len() >= pref@.len(),
            forall|j: int| 0 <= j < i ==> s@[j] == pref@[j],
        decreases pref@.len() - i,
    {
        if s[i] != pref[i] {
            assert(!spec_starts_with(s@, pref@)) by {
                assert(s@.subrange(0, pref@.len() as int)[i as int] == s@[i as int]);
            }
            return false;
        }
        i = i + 1;
    }
    assert(s@.subrange(0, pref@.len() as int) =~= pref@);
    true
}

/// Index of the first occurrence of `b` in `s` at or after `i`.
pub open spec fn find_from(s: Seq<u8>, b: u8, i: int) -> Option<int>
    decreases s.len() - i,
{
    if i < 0 || i >= s.len() {
        None
    } else if s[i] == b {
        Some(i)
    } else {
        find_from(s, b, i + 1)
    }
}

/// First occurrence of `b` in `s`, as `find_from` gives it.
pub fn find_byte(s: &[u8], b: u8) -> (r: Option<usize>)
    ensures
        match r {
            Some(p) => find_from(s@, b, 0) == Some(p as int),
            None => find_from(s@, b, 0) is None,
        },
{
    let mut i: usize = 0;
    while i < s.len()
        invariant
            i <= s@.len(),
            find_from(s@, b, 0) == find_from(s@, b, i as int),
        decreases s@.len() - i,
    {
        if s[i] == b {
            return Some(i);
        }
        i = i + 1;
    }
    None
}

/// True iff `b` is an ASCII decimal digit.
pub open spec fn is_digit(b: u8) -> bool {
    48 <= b <= 57
}

/// Value of a string of decimal digits, most significant first.
pub open spec fn dec_val(s: Seq<u8>) -> int
    decreases s.len(),
{
    if s.len() == 0 {
        0
    } else {
        dec_val(s.drop_last()) * 10 + (s.last() - 48)
    }
}

/// True iff `s` is one or more decimal digits.
pub open spec fn all_digits(s: Seq<u8>) -> bool {
    forall|i: int| 0 <= i < s.len() ==> is_digit(#[trigger] s[i])
}

/// Parses one to five decimal digits as a 16-bit port number; `None` when
/// the string is empty, longer than five digits, holds a non-digit, or
/// exceeds 65535.
pub fn parse_port(s: &[u8]) -> (r: Option<u16>)
    ensures
        match r {
            Some(v) => s@.len() > 0 && s@.len() <= 5 && all_digits(s@) && dec_val(s@) == v as int
                && dec_val(s@) <= 65535,
            None => !(s@.len() > 0 && s@.len() <= 5 && all_digits(s@) && dec_val(s@) <= 65535),
        },
{
    if s.len() == 0 || s.len() > 5 {
        return None;
    }
    let mut i: usize = 0;
    let mut val: u32 = 0;
    while i < s.len()
        invariant
            i <= s@.len(),
            s@.len() <= 5,
            all_digits(s@.subrange(0, i as int)),
            val == dec_val(s@.subrange(0, i as int)),
            val < pow10(i as nat),
        decreases s@.len() - i,
    {
        let b = s[i];
        if b < 48 || b > 57 {
            assert(!all_digits(s@)) by {
                assert(s@[i as int] == b);
            }
            return None;
        }
        proof {
            lemma_pow10_small(i as nat);
        }
        val = val * 10 + (b - 48) as u32;
        i = i + 1;
        proof {
            assert(s@.subrange(0, i as int).drop_last() =~= s@.subrange(0, i as int - 1));
            assert(s@.subrange(0, i as int).last() == b);
            assert forall|j: int| 0 <= j < i implies is_digit(#[trigger] s@.subrange(
                0,
                i as int,
            )[j]) by {
                if j < i - 1 {
                    assert(s@.subrange(0, i as int)[j] == s@.subrange(0, i as int - 1)[j]);
                }
            }
        }
    }
    proof {
        assert(s@.subrange(0, s@.len() as int) =~= s@);
    }
    if val <= 65535 {
        Some(val as u16)
    } else {
        None
    }
}

/// `pow10` of a small exponent, spelled out far enough for the port parser.
proof fn lemma_pow10_small(k: nat)
    requires
        k <= 5,
    ensures
        pow10(k) <= 100000,
        pow10(k + 1) == 10 * pow10(k),
{
    assert(pow10(0) == 1);
    assert(pow10(1) == 10);
    assert(pow10(2) == 100);
    assert(pow10(3) == 1000);
    assert(pow10(4) == 10000);
    assert(pow10(5) == 100000);
    assert(pow10(6) == 1000000);
}

pub open spec fn pow10(k: nat) -> int
    decreases k,
{
    if k == 0 {
        1
    } else {
        10 * pow10((k - 1) as nat)
    }
}

/// The decimal digits of `n`, most significant first, no leading zeros.
pub open spec fn spec_dec_u64(n: nat) -> Seq<u8>
    decreases n,
{
    if n < 10 {
        seq![(48 + n) as u8]
    } else {
        spec_dec_u64(n / 10).push((48 + n % 10) as u8)
    }
}

/// Writes `n` in decimal, most significant digit first, no leading zeros.
pub fn format_u64(n: u64) -> (r: Vec<u8>)
    ensures
        r@ == spec_dec_u64(n as nat),
    decreases n,
{
    if n < 10 {
        let r = vec![48u8 + n as u8];
        proof {
            assert(r@ =~= spec_dec_u64(n as nat));
        }
        r
    } else {
        let mut v = format_u64(n / 10);
        v.push(48u8 + (n % 10) as u8);
        v
    }
}

/// A formatted number is all digits without a leading zero, and reading it
/// back gives the number.
pub proof fn lemma_dec_round_trip(n: nat)
    ensures
        spec_dec_u64(n).len() > 0,
        all_digits(spec_dec_u64(n)),
        dec_val(spec_dec_u64(n)) == n,
        spec_dec_u64(n)[0] != 48 || n < 10,
    decreases n,
{
    if n < 10 {
        assert(spec_dec_u64(n) =~= seq![(48 + n) as u8]);
        assert(spec_dec_u64(n).drop_last() =~= Seq::<u8>::empty());
        assert(dec_val(Seq::<u8>::empty()) == 0);
        assert(spec_dec_u64(n).last() == (48 + n) as u8);
    } else {
        lemma_dec_round_trip(n / 10);
        let t = spec_dec_u64(n / 10);
        let d = (48 + n % 10) as u8;
        assert(t.push(d).drop_last() =~= t);
        assert(t.push(d).last() == d);
        assert(dec_val(t.push(d)) == dec_val(t) * 10 + (d - 48));
        assert(n == (n / 10) * 10 + n % 10);
        assert forall|i: int| 0 <= i < t.push(d).len() implies is_digit(#[trigger] t.push(d)[i]) by {
            if i < t.len() {
                assert(t.push(d)[i] == t[i]);
            }
        }
        assert(t.push(d)[0] == t[0]);
    }
}

} // verus!
