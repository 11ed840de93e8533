//! String comparison and the password digest, written out so that every
//! step is checked: plain equality, an equality that does not bail out
//! early, case-blind equality, and a hex-encoded digest.

use vstd::prelude::*;

verus! {

/// Whether two strings hold the same characters.
pub fn str_eq(a: &str, b: &str) -> (r: bool)
    ensures
        r == (a@ == b@),
{
    let alen = a.unicode_len();
    let blen = b.unicode_len();
    if alen != blen {
        return false;
    }
    let mut i: usize = 0;
    while i < alen
        invariant
            i <= alen,
            alen == a@.len(),
            alen == b@.len(),
            forall|j: int| 0 <= j < i ==> a@[j] == b@[j],
        decreases alen - i,
    {
        if a.get_char(i) != b.get_char(i) {
            return false;
        }
        i += 1;
    }
    proof {
        assert(a@ =~= b@);
    }
    true
}

/// Whether two strings of equal length hold the same characters, examining
/// every position regardless of where the first difference lies, so that
/// the comparison's course does not depend on the secret operand.  Only the
/// lengths steer the control flow.
pub fn constant_time_str_eq(a: &str, b: &str) -> (r: bool)
    ensures
        r == (a@ == b@),
{
    let alen = a.unicode_len();
    let blen = b.unicode_len();
    if alen != blen {
        return false;
    }
    let mut acc: u32 = 0;
    let mut i: usize = 0;
    while i < alen
        invariant
            i <= alen,
            alen == a@.len(),
            alen == b@.len(),
            acc == 0 <==> (forall|j: int| 0 <= j < i ==> a@[j] == b@[j]),
        decreases alen - i,
    {
        let ca = a.get_char(i) as u32;
        let cb = b.get_char(i) as u32;
        let d = ca ^ cb;
        proof {
            assert((ca ^ cb == 0) == (ca == cb)) by (bit_vector);
            assert(((acc | d) == 0) == (acc == 0 && d == 0)) by (bit_vector);
            assert((a@[i as int] as u32 == b@[i as int] as u32) == (a@[i as int]
                == b@[i as int]));
        }
        acc = acc | d;
        i += 1;
    }
    if acc == 0 {
        proof {
            assert(a@ =~= b@);
        }
        true
    } else {
        false
    }
}

/// Whether two characters are equal once ASCII case is ignored.
pub open spec fn chars_eq_nocase(a: char, b: char) -> bool {
    ||| a == b
    ||| (65 <= a as u32 <= 90 && a as u32 + 32 == b as u32)
    ||| (65 <= b as u32 <= 90 && b as u32 + 32 == a as u32)
}

/// Whether two strings are equal once ASCII case is ignored.
pub open spec fn str_eq_nocase(a: Seq<char>, b: Seq<char>) -> bool {
    a.len() == b.len() && (forall|j: int| 0 <= j < a.len() ==> chars_eq_nocase(a[j], b[j]))
}

/// Whether two strings hold the same characters up to ASCII case.
pub fn eq_ignore_ascii_case(a: &str, b: &str) -> (r: bool)
    ensures
        r == str_eq_nocase(a@, b@),
{
    let alen = a.unicode_len();
    let blen = b.unicode_len();
    if alen != blen {
        return false;
    }
    let mut i: usize = 0;
    while i < alen
        invariant
            i <= alen,
            alen == a@.len(),
            alen == b@.len(),
            forall|j: int| 0 <= j < i ==> chars_eq_nocase(a@[j], b@[j]),
        decreases alen - i,
    {
        let ca = a.get_char(i) as u32;
        let cb = b.get_char(i) as u32;
        let same = ca == cb || (65 <= ca && ca <= 90 && ca + 32 == cb) || (65 <= cb && cb <= 90
            && cb + 32 == ca);
        if !same {
            return false;
        }
        i += 1;
    }
    true
}

/// The modulus that keeps the rolling digest inside 52 bits.
pub const DIGEST_MOD: u64 = 0x10000000000000;

/// The rolling digest of a character sequence: each character folds into
/// the accumulator at base 131, modulo 2^52.
pub open spec fn digest64(s: Seq<char>) -> u64
    decreases s.len(),
{
    if s.len() == 0 {
        5381
    } else {
        (((digest64(s.drop_last()) as int * 131) % (DIGEST_MOD as int) + s.last() as int) % (
        DIGEST_MOD as int)) as u64
    }
}

/// The lower-case hex character of a nibble.
pub open spec fn hex_char(n: u64) -> char {
    if n % 16 < 10 {
        ((48 + n % 16) as u8) as char
    } else {
        ((87 + n % 16) as u8) as char
    }
}

/// The 16-character hex rendering of a digest, highest nibble first.
pub open spec fn hex16(d: u64) -> Seq<char> {
    Seq::new(16, |i: int| hex_char(d >> ((15 - i) * 4)))
}

/// What `hash_password` returns: the hex rendering of the digest of the
/// password's characters.
pub open spec fn hash_str_of(s: Seq<char>) -> Seq<char> {
    hex16(digest64(s))
}

/// Computes the digest of a string.
pub fn digest_str(s: &str) -> (d: u64)
    ensures
        d == digest64(s@),
{
    let len = s.unicode_len();
    let mut acc: u64 = 5381;
    let mut i: usize = 0;
    while i < len
        invariant
            i <= len,
            len == s@.len(),
            acc == digest64(s@.take(i as int)),
            acc < DIGEST_MOD,
        decreases len - i,
    {
        let c = s.get_char(i) as u32;
        proof {
            assert(s@.take(i + 1).drop_last() =~= s@.take(i as int));
            assert(s@.take(i + 1).last() == s@[i as int]);
        }
        acc = ((acc * 131) % DIGEST_MOD + c as u64) % DIGEST_MOD;
        i += 1;
    }
    proof {
        assert(s@.take(len as int) =~= s@);
    }
    acc
}

/// One-way digest of a password, rendered as 16 hex characters.  The user
/// record stores this value; logins recompute it and compare without
/// bailing out early.
pub fn hash_password(password: &str) -> (r: String)
    ensures
        r@ == hash_str_of(password@),
{
    let d = digest_str(password);
    let mut bytes: Vec<u8> = Vec::new();
    let mut i: usize = 0;
    while i < 16
        invariant
            i <= 16,
            d == digest64(password@),
            bytes@.len() == i,
            forall|j: int| 0 <= j < i ==> bytes@[j] < 128,
            forall|j: int| 0 <= j < i ==> bytes@[j] as char == hash_str_of(password@)[j],
        decreases 16 - i,
    {
        let shift: u64 = ((15 - i) * 4) as u64;
        let nib: u64 = (d >> shift) % 16;
        let b: u8 = if nib < 10 {
            (48 + nib) as u8
        } else {
            (87 + nib) as u8
        };
        proof {
            let dd = d >> shift;
            assert(dd % 16 == nib);
        }
        bytes.push(b);
        i += 1;
    }
    let r = crate::trusted::ascii_string(bytes);
    proof {
        assert(r@ =~= hash_str_of(password@));
    }
    r
}

} // verus!
