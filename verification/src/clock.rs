//! The boot-time field: an epoch-second count rendered as an absolute UTC
//! calendar timestamp.

use vstd::prelude::*;

verus! {

/// The largest boot time (seconds since the Unix epoch) the report accepts:
/// the last second of year 9999, comfortably inside the range a calendar
/// timestamp can represent.
pub const MAX_BOOT_TIME_SECS: u64 = 253_402_300_799;

/// The UTC calendar rendering `YYYY-MM-DD HH:MM:SS.ffffff` of an
/// epoch-second count, zero-padded, with six fractional digits (always
/// zero, since the count has whole-second resolution).
pub uninterp spec fn utc_timestamp_of(secs: u64) -> Seq<char>;

/// Relies on `chrono::DateTime::<Utc>::from_timestamp` and `format` with
/// `%Y-%m-%d %H:%M:%S.%6f`: the rendering is a function of the count
/// alone, and every count up to the last second of year 9999 is within the
/// representable range.
#[verifier::external_body]
fn utc_timestamp_string(secs: u64) -> (r: Option<String>)
    ensures
        (r matches Some(s) ==> s@ == utc_timestamp_of(secs)),
        secs <= MAX_BOOT_TIME_SECS ==> r is Some,
{
    let secs_i64 = i64::try_from(secs).ok()?;
    let datetime = chrono::DateTime::<chrono::Utc>::from_timestamp(secs_i64, 0)?;
    Some(datetime.format("%Y-%m-%d %H:%M:%S.%6f").to_string())
}

/// Renders a boot time as an absolute UTC calendar timestamp with
/// microsecond precision.
pub fn format_timestamp(secs: u64) -> (r: String)
    requires
        secs <= MAX_BOOT_TIME_SECS,
    ensures
        r@ == utc_timestamp_of(secs),
{
    match utc_timestamp_string(secs) {
        Some(s) => s,
        None => {
            proof {
                assert(false);
            }
            String::new()
        },
    }
}

} // verus!
