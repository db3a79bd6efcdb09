use utc_dt::time::{UTCTimestamp, UTCTransformations};
use utc_dt::UTCDatetime;
use vstd::prelude::*;

verus! {

/// The ISO-8601 UTC rendering, to the millisecond, of a point in time given
/// as milliseconds since the Unix epoch (`YYYY-MM-DDThh:mm:ss.sssZ`).
pub uninterp spec fn iso_datetime_of(millis: nat) -> Seq<char>;

/// Relies on utc_dt's `UTCDatetime::as_iso_datetime` with precision 3, applied
/// to `UTCDatetime::from_timestamp(UTCTimestamp::from_millis(millis))`: the
/// text depends on `millis` alone.
#[verifier::external_body]
fn iso_datetime_millis(millis: u64) -> (r: String)
    ensures
        r@ == iso_datetime_of(millis as nat),
{
    UTCDatetime::from_timestamp(UTCTimestamp::from_millis(millis)).as_iso_datetime(3)
}

/// The timestamp written at the head of a line for the point in time
/// `millis` milliseconds after the Unix epoch.
pub fn format_timestamp(millis: u64) -> (r: String)
    ensures
        r@ == iso_datetime_of(millis as nat),
{
    iso_datetime_millis(millis)
}

} // verus!
