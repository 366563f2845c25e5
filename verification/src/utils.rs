//! The wall clock, read as whole seconds since the Unix epoch.

use std::time::Duration;
use std::time::SystemTime;
use vstd::prelude::*;

verus! {

/// `std::time::SystemTime`, carried through as an opaque value.
#[verifier::external_type_specification]
#[verifier::external_body]
pub struct ExSystemTime(std::time::SystemTime);

/// `SystemTime::now`: the current reading of the system clock. Nothing is
/// claimed of it; two readings may differ in either direction.
#[verifier::external_body]
fn clock_reading() -> (t: SystemTime) {
    SystemTime::now()
}

/// `SystemTime::duration_since` against `UNIX_EPOCH`: the time elapsed since
/// the epoch, or `None` where the reading lies before it. Nothing is claimed
/// of the value.
#[verifier::external_body]
fn since_epoch(t: &SystemTime) -> (d: Option<Duration>) {
    t.duration_since(std::time::UNIX_EPOCH).ok()
}

/// `Duration::as_secs`: the whole seconds of a duration. Nothing is claimed
/// of the value.
#[verifier::external_body]
fn whole_seconds(d: &Duration) -> (s: u64) {
    d.as_secs()
}

/// The timestamp that stands for a clock reading: the seconds themselves,
/// held to the range of `i64`, and the epoch for a clock set before it.
pub open spec fn timestamp_of(elapsed: Option<u64>) -> i64 {
    match elapsed {
        None => 0i64,
        Some(s) => if s <= i64::MAX as u64 {
            s as i64
        } else {
            i64::MAX
        },
    }
}

/// Turns the seconds elapsed since the epoch (`None`: the clock stands before
/// it) into a timestamp.
pub fn timestamp(elapsed: Option<u64>) -> (t: i64)
    ensures
        t == timestamp_of(elapsed),
        t >= 0,
{
    match elapsed {
        None => 0i64,
        Some(s) => if s <= i64::MAX as u64 {
            s as i64
        } else {
            i64::MAX
        },
    }
}

/// Seconds elapsed since the Unix epoch, if the clock stands at or after it.
pub fn elapsed_seconds() -> (elapsed: Option<u64>) {
    let reading = clock_reading();
    match since_epoch(&reading) {
        Some(d) => Some(whole_seconds(&d)),
        None => None,
    }
}

/// The current Unix time in seconds. Never negative: a clock set before the
/// epoch reads as the epoch.
pub fn now() -> (t: i64)
    ensures
        t >= 0,
        exists|elapsed: Option<u64>| t == #[trigger] timestamp_of(elapsed),
{
    timestamp(elapsed_seconds())
}

/// The low 32 bits of a row key, read as a signed number: the key itself
/// wherever it fits.
pub open spec fn low_word(rowid: i64) -> i32 {
    let low = (rowid as int) % 0x1_0000_0000;
    if low < 0x8000_0000 {
        low as i32
    } else {
        (low - 0x1_0000_0000) as i32
    }
}

/// Narrows a row key of the store to the width of the keys in responses,
/// keeping its low 32 bits.
pub fn row_key(rowid: i64) -> (key: i32)
    ensures
        key == low_word(rowid),
        i32::MIN <= rowid <= i32::MAX ==> key == rowid,
{
    let low: u64 = if rowid >= 0 {
        (rowid as u64) % 0x1_0000_0000
    } else {
        let below: u64 = (-(rowid + 1)) as u64;
        0xffff_ffff - below % 0x1_0000_0000
    };
    assert(low as int == (rowid as int) % 0x1_0000_0000);
    if low < 0x8000_0000 {
        low as i32
    } else {
        (low as i64 - 0x1_0000_0000) as i32
    }
}

} // verus!
