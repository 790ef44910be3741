//! Byte-string helpers shared by the protocol modules: first-occurrence
//! search, slicing, equality, and decimal <-> integer conversion.

use vstd::prelude::*;

verus! {

/// First position of byte `b` in `s`, or `s.len()` when `b` does not occur.
pub open spec fn find_pos(s: Seq<u8>, b: u8) -> int
    decreases s.len(),
{
    if s.len() == 0 {
        0
    } else if s[0] == b {
        0
    } else {
        1 + find_pos(s.drop_first(), b)
    }
}

/// `find_pos` returns the first occurrence of `b`, or the length.
pub proof fn lemma_find_pos(s: Seq<u8>, b: u8)
    ensures
        0 <= find_pos(s, b) <= s.len(),
        forall|i: int| 0 <= i < find_pos(s, b) ==> s[i] != b,
        find_pos(s, b) < s.len() ==> s[find_pos(s, b)] == b,
    decreases s.len(),
{
    if s.len() == 0 {
    } else if s[0] == b {
    } else {
        lemma_find_pos(s.drop_first(), b);
        assert forall|i: int| 0 <= i < find_pos(s, b) implies s[i] != b by {
            if i > 0 {
                assert(s.drop_first()[i - 1] != b);
            }
        }
    }
}

/// A position before which `b` does not occur, and which holds `b` or is the
/// length, is exactly `find_pos`.
pub proof fn lemma_find_pos_unique(s: Seq<u8>, b: u8, p: int)
    requires
        0 <= p <= s.len(),
        forall|i: int| 0 <= i < p ==> s[i] != b,
        p < s.len() ==> s[p] == b,
    ensures
        find_pos(s, b) == p,
    decreases s.len(),
{
    if s.len() == 0 {
    } else if s[0] == b {
        assert(p == 0);
    } else {
        assert(p > 0);
        assert forall|i: int| 0 <= i < p - 1 implies s.drop_first()[i] != b by {
            assert(s[i + 1] != b);
        }
        lemma_find_pos_unique(s.drop_first(), b, p - 1);
    }
}

/// First index of `b` in `v` at or after `from`, or `v.len()` when `b` does
/// not occur there.
pub fn find_byte(v: &Vec<u8>, from: usize, b: u8) -> (r: usize)
    requires
        from <= v.len(),
    ensures
        r == from + find_pos(v@.skip(from as int), b),
        from <= r <= v.len(),
{
    let ghost tail = v@.skip(from as int);
    let mut i: usize = from;
    loop
        invariant
            from <= i <= v.len(),
            tail == v@.skip(from as int),
            forall|j: int| 0 <= j < i - from ==> tail[j] != b,
        decreases v.len() - i,
    {
        if i == v.len() {
            proof {
                lemma_find_pos_unique(tail, b, i - from);
            }
            return i;
        }
        if v[i] == b {
            proof {
                lemma_find_pos_unique(tail, b, i - from);
            }
            return i;
        }
        i = i + 1;
    }
}

/// True exactly when the two byte vectors hold the same bytes.
pub fn bytes_eq(a: &Vec<u8>, b: &Vec<u8>) -> (r: bool)
    ensures
        r == (a@ == b@),
{
    if a.len() != b.len() {
        return false;
    }
    let mut i: usize = 0;
    while i < a.len()
        invariant
            i <= a.len(),
            a.len() == b.len(),
            forall|j: int| 0 <= j < i ==> a@[j] == b@[j],
        decreases a.len() - i,
    {
        if a[i] != b[i] {
            return false;
        }
        i = i + 1;
    }
    proof {
        assert(a@ =~= b@);
    }
    true
}

/// Copy of `v[a..b]`.
pub fn subvec(v: &Vec<u8>, a: usize, b: usize) -> (r: Vec<u8>)
    requires
        a <= b <= v.len(),
    ensures
        r@ == v@.subrange(a as int, b as int),
{
    let mut r: Vec<u8> = Vec::new();
    let mut i: usize = a;
    while i < b
        invariant
            a <= i <= b <= v.len(),
            r@ == v@.subrange(a as int, i as int),
        decreases b - i,
    {
        r.push(v[i]);
        proof {
            assert(v@.subrange(a as int, i + 1) =~= v@.subrange(a as int, i as int).push(v@[i as int]));
        }
        i = i + 1;
    }
    r
}

/// Append every byte of `src` to `dst`.
pub fn push_all(dst: &mut Vec<u8>, src: &Vec<u8>)
    ensures
        final(dst)@ == old(dst)@ + src@,
{
    let mut i: usize = 0;
    while i < src.len()
        invariant
            i <= src.len(),
            dst@ == old(dst)@ + src@.take(i as int),
        decreases src.len() - i,
    {
        dst.push(src[i]);
        proof {
            assert(old(dst)@ + src@.take(i + 1) =~= (old(dst)@ + src@.take(i as int)).push(
                src@[i as int],
            ));
        }
        i = i + 1;
    }
    proof {
        assert(src@.take(src@.len() as int) =~= src@);
    }
}

/// ASCII decimal digit.
pub open spec fn is_digit(b: u8) -> bool {
    48 <= b <= 57
}

/// Every byte of `s` is an ASCII decimal digit.
pub open spec fn all_digits(s: Seq<u8>) -> bool {
    forall|i: int| 0 <= i < s.len() ==> is_digit(s[i])
}

/// Value of `s` read as a big-endian decimal numeral.
pub open spec fn digits_val(s: Seq<u8>) -> nat
    decreases s.len(),
{
    if s.len() == 0 {
        0
    } else {
        digits_val(s.drop_last()) * 10 + (if s.last() >= 48 {
            (s.last() - 48) as nat
        } else {
            0
        })
    }
}

/// A numeral's value never falls when more digits are appended.
pub proof fn lemma_digits_val_prefix(s: Seq<u8>, k: int)
    requires
        0 <= k <= s.len(),
    ensures
        digits_val(s.take(k)) <= digits_val(s),
    decreases s.len(),
{
    if k == s.len() {
        assert(s.take(k) =~= s);
    } else {
        assert(s.drop_last().take(k) =~= s.take(k));
        lemma_digits_val_prefix(s.drop_last(), k);
    }
}

/// Shortest decimal numeral for `n`.
pub open spec fn dec_digits(n: nat) -> Seq<u8>
    decreases n,
{
    if n < 10 {
        seq![(48 + n) as u8]
    } else {
        dec_digits(n / 10).push((48 + n % 10) as u8)
    }
}

/// Render `n` as its shortest ASCII decimal numeral.
pub fn u64_to_dec(n: u64) -> (r: Vec<u8>)
    ensures
        r@ == dec_digits(n as nat),
    decreases n,
{
    if n < 10 {
        let mut r: Vec<u8> = Vec::new();
        r.push(48 + (n as u8));
        proof {
            assert(r@ =~= dec_digits(n as nat));
        }
        r
    } else {
        let mut r = u64_to_dec(n / 10);
        r.push(48 + ((n % 10) as u8));
        r
    }
}

/// Parse a byte vector as an unsigned 32-bit decimal numeral: `Some` exactly
/// when `s` is a non-empty all-digit string whose value fits in a `u32`.
pub fn parse_u32(s: &Vec<u8>) -> (r: Option<u32>)
    ensures
        match r {
            Some(v) => s@.len() > 0 && all_digits(s@) && digits_val(s@) == v as nat,
            None => s@.len() == 0 || !all_digits(s@) || digits_val(s@) > u32::MAX as nat,
        },
{
    if s.len() == 0 {
        return None;
    }
    let mut acc: u64 = 0;
    let mut i: usize = 0;
    while i < s.len()
        invariant
            i <= s.len(),
            all_digits(s@.take(i as int)),
            acc == digits_val(s@.take(i as int)),
            acc <= u32::MAX,
        decreases s.len() - i,
    {
        let b = s[i];
        if b < 48 || b > 57 {
            assert(!is_digit(s@[i as int]));
            return None;
        }
        proof {
            assert(s@.take(i + 1).drop_last() =~= s@.take(i as int));
            assert(s@.take(i + 1).last() == s@[i as int]);
        }
        acc = acc * 10 + ((b - 48) as u64);
        i = i + 1;
        if acc > u32::MAX as u64 {
            proof {
                lemma_digits_val_prefix(s@, i as int);
            }
            return None;
        }
        assert(all_digits(s@.take(i as int)));
    }
    proof {
        assert(s@.take(s@.len() as int) =~= s@);
    }
    Some(acc as u32)
}

} // verus!
