//! Wall-clock timestamps of an attempt, rendered in the machine's local
//! time zone.

use vstd::prelude::*;
use crate::record::{meta_from_parts, meta_is, meta_without_times, seconds4, Meta};

verus! {

/// Whether `chrono::DateTime::from_timestamp` accepts these seconds and
/// nanoseconds since the Unix epoch.
pub uninterp spec fn timestamp_in_range(secs: i64, nanos: u32) -> bool;

/// Relies on `chrono::DateTime::from_timestamp`, which gives `None` out of
/// its range, then on the conversion to `Local` and `%Y-%m-%d %H:%M:%S`
/// formatting. Inside that range the time-zone lookup succeeds. The text
/// depends on the machine's time zone, so only its presence is stated.
#[verifier::external_body]
pub fn format_datetime(secs: i64, nanos: u32) -> (r: Option<String>)
    ensures
        r is Some <==> timestamp_in_range(secs, nanos),
{
    let utc = chrono::DateTime::from_timestamp(secs, nanos)?;
    Some(utc.with_timezone(&chrono::Local).format("%Y-%m-%d %H:%M:%S").to_string())
}

/// The meta of a finished attempt: `"<start> -> <end>"` in local time (empty
/// where either instant cannot be rendered), the elapsed seconds with four
/// decimals, and the tag. Instants are seconds and nanoseconds since the
/// Unix epoch.
pub fn request_meta(
    start_secs: i64,
    start_nanos: u32,
    end_secs: i64,
    end_nanos: u32,
    elapsed_us: u64,
    tag: &str,
) -> (m: Meta)
    ensures
        timestamp_in_range(start_secs, start_nanos) && timestamp_in_range(end_secs, end_nanos)
            ==> exists|a: Seq<char>, b: Seq<char>| meta_is(m, a + " -> "@ + b, seconds4(elapsed_us as nat), tag@),
        !(timestamp_in_range(start_secs, start_nanos) && timestamp_in_range(end_secs, end_nanos))
            ==> meta_is(m, Seq::empty(), seconds4(elapsed_us as nat), tag@),
{
    match (format_datetime(start_secs, start_nanos), format_datetime(end_secs, end_nanos)) {
        (Some(a), Some(b)) => meta_from_parts(a.as_str(), b.as_str(), elapsed_us, tag),
        _ => meta_without_times(elapsed_us, tag),
    }
}

} // verus!
