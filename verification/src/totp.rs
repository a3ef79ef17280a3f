//! The TOTP evaluator: the single fixed profile of 6 digits, HMAC-SHA1 and
//! 30-second time steps from epoch 0.

use vstd::prelude::*;

verus! {

/// Width of a code, in decimal digits.
pub const TOTP_DIGITS: u32 = 6;

/// Length of one time step, in seconds.
pub const TIME_STEP_SECONDS: u64 = 30;

/// Ten to the `e`.
pub open spec fn pow10(e: nat) -> nat
    decreases e,
{
    if e == 0 {
        1
    } else {
        10 * pow10((e - 1) as nat)
    }
}

/// What oath's HOTP computes: HMAC-SHA1 of the big-endian counter under the
/// key, dynamically truncated and reduced modulo ten to the digit count — a
/// pure function of its arguments.
pub uninterp spec fn hotp_of(key: Seq<u8>, counter: u64, digits: u32) -> u64;

/// Relies on oath::hotp_raw: it computes `hotp_of` and reduces the truncated
/// value modulo `10^digits`, so the result is below that bound.
#[verifier::external_body]
fn hotp_sha1(key: &[u8], counter: u64, digits: u32) -> (r: u64)
    requires
        1 <= digits <= 19,
    ensures
        r == hotp_of(key@, counter, digits),
        r < pow10(digits as nat),
{
    oath::hotp_raw(key, counter, digits)
}

/// The counter a timestamp falls in: whole time steps elapsed since epoch 0.
pub open spec fn counter_of(timestamp: u64) -> u64 {
    timestamp / TIME_STEP_SECONDS
}

/// See `counter_of`.
pub fn counter_for_timestamp(timestamp: u64) -> (c: u64)
    ensures
        c == counter_of(timestamp),
{
    timestamp / TIME_STEP_SECONDS
}

/// The code the fixed profile yields for a secret at a timestamp.
pub open spec fn totp_code_of(key: Seq<u8>, timestamp: u64) -> u64 {
    hotp_of(key, counter_of(timestamp), TOTP_DIGITS)
}

/// Computes the TOTP code of `secret` at `timestamp`: deterministic, total,
/// and always in `[0, 999999]`.
pub fn totp_for_timestamp(secret: &[u8], timestamp: u64) -> (r: u64)
    ensures
        r == totp_code_of(secret@, timestamp),
        r < 1000000,
{
    let counter = counter_for_timestamp(timestamp);
    let code = hotp_sha1(secret, counter, TOTP_DIGITS);
    proof {
        assert(pow10(6) == 1000000) by {
            assert(pow10(0) == 1);
            assert(pow10(1) == 10);
            assert(pow10(2) == 100);
            assert(pow10(3) == 1000);
            assert(pow10(4) == 10000);
            assert(pow10(5) == 100000);
        }
    }
    code
}

} // verus!
