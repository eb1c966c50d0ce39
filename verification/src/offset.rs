//! Resolution of the host's local UTC offset for timestamp rendering.
//!
//! The query itself is the work of an outside collaborator; the library
//! proves that once a local offset has been obtained, converting it into the
//! offset type the timestamp formatter takes can never fail.

use vstd::prelude::*;

verus! {

#[verifier::external_type_specification]
#[verifier::external_body]
pub struct ExLocalUtcOffset(clia_time::UtcOffset);

#[verifier::external_type_specification]
#[verifier::external_body]
pub struct ExFormatterUtcOffset(time::UtcOffset);

/// The seconds a local offset value holds: what
/// clia_time::UtcOffset::whole_seconds reads out of it.
pub uninterp spec fn local_offset_seconds(o: clia_time::UtcOffset) -> int;

/// The seconds a formatter offset value holds: what
/// time::UtcOffset::whole_seconds reads out of it.
pub uninterp spec fn formatter_offset_seconds(o: time::UtcOffset) -> int;

/// Relies on clia_time::UtcOffset::current_local_offset, for querying the
/// host's local UTC offset at the moment of the call.  The outcome depends on
/// the machine, so nothing is promised of it.
#[verifier::external_body]
fn query_local_offset() -> (r: Option<clia_time::UtcOffset>) {
    clia_time::UtcOffset::current_local_offset().ok()
}

/// Relies on clia_time::UtcOffset::whole_seconds: reads the seconds an
/// offset holds.  The offset type stores values up to plus or minus
/// 23:59:59, so the result lies within plus or minus 86399 seconds.
pub assume_specification[ clia_time::UtcOffset::whole_seconds ](
    o: clia_time::UtcOffset,
) -> (r: i32)
    ensures
        r as int == local_offset_seconds(o),
        -86399 <= r <= 86399,
;

/// Relies on time::UtcOffset::from_whole_seconds: constructs an offset that
/// holds exactly the given seconds, and succeeds exactly on inputs within
/// plus or minus 25:59:59, that is 93599 seconds.
#[verifier::external_body]
fn offset_from_whole_seconds(seconds: i32) -> (r: Option<time::UtcOffset>)
    ensures
        r is Some <==> -93599 <= seconds <= 93599,
        (match r {
            Some(offset) => formatter_offset_seconds(offset) == seconds as int,
            None => true,
        }),
{
    time::UtcOffset::from_whole_seconds(seconds).ok()
}

/// Converts an obtained local offset into the offset type the timestamp
/// formatter takes.  The converted offset holds the same seconds, so records
/// are stamped in the local offset that was obtained; and an obtained local
/// offset always lies within the range the formatter's type admits, so the
/// conversion cannot fail.
pub fn offset_for_formatter(local: clia_time::UtcOffset) -> (r: time::UtcOffset)
    ensures
        formatter_offset_seconds(r) == local_offset_seconds(local),
        -86399 <= formatter_offset_seconds(r) <= 86399,
{
    let seconds = local.whole_seconds();
    match offset_from_whole_seconds(seconds) {
        Some(offset) => offset,
        None => unreached(),
    }
}

/// Resolves the host's local UTC offset at the moment of the call, ready for
/// the timestamp formatter, or `None` where the host cannot determine it.
/// Whatever offset comes back holds the seconds of the local offset the host
/// reported, within plus or minus 86399.  Initialization treats `None` as
/// fatal: without the offset no correctly stamped timestamp can be produced.
pub fn resolve_utc_offset() -> (r: Option<time::UtcOffset>)
    ensures
        (match r {
            Some(offset) => -86399 <= formatter_offset_seconds(offset) <= 86399,
            None => true,
        }),
{
    match query_local_offset() {
        Some(local) => Some(offset_for_formatter(local)),
        None => None,
    }
}

} // verus!
