//! A source of pseudo-random fractions for the particle effects.
//!
//! Each draw hashes the current time with a freshly keyed hasher. Nothing
//! is known of a draw but its range; whatever uses one is verified for
//! every value it may have.

use vstd::prelude::*;
use std::collections::hash_map::{DefaultHasher, RandomState};
use std::hash::{BuildHasher, Hasher};
use std::time::{Duration, SystemTime, SystemTimeError, UNIX_EPOCH};
use crate::fixed::{fx_add, fx_mul, fx_sub, minus, plus, times, ONE};

verus! {

/// Trusted: makes `SystemTime` of the standard library known as a type
/// whose inside is hidden.
#[verifier::external_type_specification]
#[verifier::external_body]
pub struct ExSystemTime(SystemTime);

/// Trusted: makes `SystemTimeError` of the standard library known as a
/// type whose inside is hidden.
#[verifier::external_type_specification]
#[verifier::external_body]
pub struct ExSystemTimeError(SystemTimeError);

/// The system clock's reading.
///
/// Trusted: calls `SystemTime::now`. Nothing is claimed of the reading.
#[verifier::external_body]
fn clock_reading() -> SystemTime {
    SystemTime::now()
}

/// The time from the start of 1970 to `reading`, or the error of a clock
/// that is set before it.
///
/// Trusted: calls `SystemTime::duration_since` with `UNIX_EPOCH`. Nothing
/// is claimed of the result.
#[verifier::external_body]
fn since_epoch(reading: &SystemTime) -> Result<Duration, SystemTimeError> {
    reading.duration_since(UNIX_EPOCH)
}

/// A duration in whole nanoseconds.
///
/// Trusted: calls `Duration::as_nanos`. Nothing is claimed of the number.
#[verifier::external_body]
fn whole_nanos(span: &Duration) -> u128 {
    span.as_nanos()
}

/// A hasher state with keys of its own.
///
/// Trusted: calls `RandomState::new`. Nothing is claimed of the keys.
#[verifier::external_body]
fn fresh_keys() -> RandomState {
    RandomState::new()
}

/// A hasher that uses the given keys.
///
/// Trusted: calls `BuildHasher::build_hasher` of `RandomState`. Nothing is
/// claimed of the hasher.
#[verifier::external_body]
fn keyed_hasher(keys: &RandomState) -> DefaultHasher {
    keys.build_hasher()
}

/// Feeds one word to a hasher.
///
/// Trusted: calls `Hasher::write_u64`. Nothing is claimed of the hasher
/// afterwards.
#[verifier::external_body]
fn feed_word(hasher: &mut DefaultHasher, word: u64) {
    hasher.write_u64(word)
}

/// The fraction of one that `word` is of the largest word.
pub open spec fn word_share(word: u64) -> i64 {
    ((word * ONE) / (u64::MAX as int)) as i64
}

/// Maps a word to a fraction between zero and one, both included.
pub fn unit_from_word(word: u64) -> (share: i64)
    ensures
        share == word_share(word),
        0 <= share <= ONE,
        word == 0 ==> share == 0,
        word == u64::MAX ==> share == ONE,
{
    let wide: u128 = word as u128 * 1_000_000;
    (wide / 0xffff_ffff_ffff_ffff) as i64
}

/// A pseudo-random fraction between zero and one.
pub fn rand_unit() -> (share: i64)
    ensures
        0 <= share <= ONE,
{
    let reading = clock_reading();
    let nanos: u128 = match since_epoch(&reading) {
        Ok(span) => whole_nanos(&span),
        Err(_) => 0,
    };
    let keys = fresh_keys();
    let mut hasher = keyed_hasher(&keys);
    feed_word(&mut hasher, #[verifier::truncate] (nanos as u64));
    unit_from_word(hasher.finish())
}

/// The point that lies the share `share` of the way from `min` to `max`.
pub open spec fn between(min: i64, max: i64, share: i64) -> i64 {
    plus(min, times(share, minus(max, min)))
}

/// Turns a fraction into a value between `min` and `max`.
pub fn spread(min: i64, max: i64, share: i64) -> (value: i64)
    ensures
        value == between(min, max, share),
{
    fx_add(min, fx_mul(share, fx_sub(max, min)))
}

/// A pseudo-random value between `min` and `max`.
pub fn lerp_rand(min: i64, max: i64) -> (value: i64)
    ensures
        exists|share: i64| 0 <= share <= ONE && value == #[trigger] between(min, max, share),
{
    let share = rand_unit();
    spread(min, max, share)
}

} // verus!
