//! Time-windowed one-time codes: a pure function of the shared secret and
//! the time window, with one window of clock skew allowed on each side.

use vstd::prelude::*;
use crate::strutil::DIGEST_MOD;

verus! {

/// Length of one code window, in seconds.
pub const TOTP_PERIOD_SECONDS: i64 = 30;

/// Codes have six digits.
pub const CODE_SPACE: u32 = 1000000;

/// The rolling fold of the secret's bytes onto a seed, at base 131 modulo
/// 2^52; the same shape of fold the password digest uses.
pub open spec fn fold_bytes(key: Seq<u8>, seed: u64) -> u64
    decreases key.len(),
{
    if key.len() == 0 {
        (seed as int % DIGEST_MOD as int) as u64
    } else {
        (((fold_bytes(key.drop_last(), seed) as int * 131) % (DIGEST_MOD as int)
            + key.last() as int) % (DIGEST_MOD as int)) as u64
    }
}

/// Computes the fold of the secret's bytes onto a seed.
pub fn fold_bytes_from(key: &Vec<u8>, seed: u64) -> (r: u64)
    ensures
        r == fold_bytes(key@, seed),
        r < DIGEST_MOD,
{
    let len = key.len();
    let mut acc: u64 = seed % DIGEST_MOD;
    let mut i: usize = 0;
    while i < len
        invariant
            i <= len,
            len == key@.len(),
            acc == fold_bytes(key@.take(i as int), seed),
            acc < DIGEST_MOD,
        decreases len - i,
    {
        let b = key[i];
        proof {
            assert(key@.take(i + 1).drop_last() =~= key@.take(i as int));
            assert(key@.take(i + 1).last() == key@[i as int]);
        }
        acc = ((acc * 131) % DIGEST_MOD + b as u64) % DIGEST_MOD;
        i += 1;
    }
    proof {
        assert(key@.take(len as int) =~= key@);
    }
    acc
}

/// The expected code for a secret and a window: the fold of the secret
/// seeded with the window, reduced to six digits.
pub open spec fn expected_code(key: Seq<u8>, window: u64) -> u32 {
    (fold_bytes(key, window) as int % CODE_SPACE as int) as u32
}

/// Computes the expected code for a secret and a window.
pub fn code_for_window(key: &Vec<u8>, window: u64) -> (r: u32)
    ensures
        r == expected_code(key@, window),
        r < CODE_SPACE,
{
    let folded = fold_bytes_from(key, window);
    (folded % (CODE_SPACE as u64)) as u32
}

/// Whether a submitted code is accepted for a secret at a window: the
/// window itself counts, and so does one window of clock skew on each
/// side.
pub open spec fn code_accepted(key: Seq<u8>, code: u32, window: u64) -> bool {
    ||| code == expected_code(key, window)
    ||| (window > 0 && code == expected_code(key, (window - 1) as u64))
    ||| (window < u64::MAX && code == expected_code(key, (window + 1) as u64))
}

/// Verifies a one-time code against the shared secret, allowing one window
/// of clock skew on each side.  All candidate codes are computed before
/// any comparison, so the work done does not depend on which one matches.
pub fn verify_one_time_code(key: &Vec<u8>, code: u32, window: u64) -> (r: bool)
    ensures
        r == code_accepted(key@, code, window),
{
    let here = code_for_window(key, window);
    let before = if window > 0 {
        code_for_window(key, window - 1)
    } else {
        here
    };
    let after = if window < u64::MAX {
        code_for_window(key, window + 1)
    } else {
        here
    };
    let m0: u8 = if code == here {
        1
    } else {
        0
    };
    let m1: u8 = if window > 0 && code == before {
        1
    } else {
        0
    };
    let m2: u8 = if window < u64::MAX && code == after {
        1
    } else {
        0
    };
    proof {
        assert(((m0 | m1 | m2) != 0) == (m0 == 1 || m1 == 1 || m2 == 1)) by (bit_vector)
            requires
                m0 <= 1,
                m1 <= 1,
                m2 <= 1,
        ;
    }
    (m0 | m1 | m2) != 0
}

/// The window a timestamp falls in.
pub fn window_of(now: i64) -> (w: u64)
    requires
        now >= 0,
    ensures
        w as int == now as int / TOTP_PERIOD_SECONDS as int,
{
    (now / TOTP_PERIOD_SECONDS) as u64
}

/// Draws a fresh one-time-code secret of 32 bytes.  The caller should
/// store it only once the user has confirmed one valid code derived from
/// it.
pub fn provision() -> (r: Vec<u8>)
    ensures
        r@.len() == 32,
{
    crate::trusted::random_bytes32()
}

} // verus!
