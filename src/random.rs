//! Random values and the clock. Not meant for cryptographic use.
use vstd::prelude::*;

use crate::codec_error::TwineCodecError;

verus! {

/// Declares the error type of `getrandom`.
#[verifier::external_type_specification]
#[verifier::external_body]
pub struct ExRandomError(getrandom::Error);

/// Declares `std::time::SystemTime`.
#[verifier::external_type_specification]
#[verifier::external_body]
pub struct ExSystemTime(std::time::SystemTime);

/// Declares `std::time::SystemTimeError`.
#[verifier::external_type_specification]
#[verifier::external_body]
pub struct ExSystemTimeError(std::time::SystemTimeError);

/// Relies on `std::time::UNIX_EPOCH`, the start of Unix time; nothing is
/// assumed of its value.
#[verifier::external_body]
fn unix_epoch() -> std::time::SystemTime {
    std::time::UNIX_EPOCH
}

/// The clock's reading: nothing is known of it.
pub assume_specification[ std::time::SystemTime::now ]() -> std::time::SystemTime;

/// The time between two readings, or an error when `earlier` is later.
pub assume_specification[ std::time::SystemTime::duration_since ](
    t: &std::time::SystemTime,
    earlier: std::time::SystemTime,
) -> Result<core::time::Duration, std::time::SystemTimeError>;

/// The whole seconds of a duration.
pub assume_specification[ core::time::Duration::as_secs ](d: &core::time::Duration) -> u64;

/// Relies on `getrandom::fill`: it fills `dest` from the system's random
/// source, or fails; the length of `dest` stays as it was.
#[verifier::external_body]
fn os_random_fill(dest: &mut [u8]) -> (r: Result<(), getrandom::Error>)
    ensures
        final(dest)@.len() == old(dest)@.len(),
{
    getrandom::fill(dest)
}

/// Fills `buffer` with random bytes.
pub fn fill_random_bytes(buffer: &mut [u8]) -> (r: Result<(), TwineCodecError>)
    ensures
        final(buffer)@.len() == old(buffer)@.len(),
        r matches Err(e) ==> e == TwineCodecError::Internal("random source failed"),
{
    match os_random_fill(buffer) {
        Ok(()) => Ok(()),
        Err(_) => Err(TwineCodecError::Internal("random source failed")),
    }
}

/// Maps a random `u16` onto `[min, max]` by scaling.
pub fn scale_random_u16(random: u16, min: u16, max: u16) -> (r: u16)
    requires
        min <= max,
    ensures
        r as nat == min as nat + (random as nat * (max - min + 1) as nat) / 65536,
        min <= r <= max,
{
    let span: u32 = (max - min) as u32 + 1;
    proof {
        assert((random as nat) * (span as nat) <= 65535 * 65536) by (nonlinear_arith)
            requires
                random <= 65535,
                span <= 65536,
        ;
    }
    let product: u32 = (random as u32) * span;
    let scaled: u32 = product >> 16u32;
    proof {
        let s = span as nat;
        let x = random as nat;
        assert(x * s <= 65535 * 65536) by (nonlinear_arith)
            requires
                x <= 65535,
                s <= 65536,
        ;
        assert(product >> 16u32 == product / 65536u32) by (bit_vector);
        assert((x * s) / 65536 < s) by (nonlinear_arith)
            requires
                x < 65536,
                s > 0,
        ;
    }
    min + scaled as u16
}

/// A random `u16` in `[min, max]`. When the random source fails the value is
/// still in range, but not random.
pub fn random_range_u16(min: u16, max: u16) -> (r: u16)
    requires
        min <= max,
    ensures
        min <= r <= max,
{
    let mut bytes = [0u8; 2];
    let _ = fill_random_bytes(&mut bytes);
    let random: u16 = (bytes[0] as u16) | ((bytes[1] as u16) << 8u16);
    scale_random_u16(random, min, max)
}

/// Whole seconds since the Unix epoch, or `None` when the clock reads
/// earlier than that.
pub fn unix_time_seconds() -> (r: Option<u64>) {
    let now = std::time::SystemTime::now();
    match now.duration_since(unix_epoch()) {
        Ok(d) => Some(d.as_secs()),
        Err(_) => None,
    }
}

} // verus!
