//! Dates shown to users.

use vstd::prelude::*;

use time::format_description::well_known::Rfc2822;
use time::{OffsetDateTime, UtcOffset};

verus! {

/// The RFC 2822 text of the instant `unix_secs` seconds after the Unix
/// epoch, in the time zone `offset_hours` hours ahead of UTC; `None` when
/// the instant, the offset, or the date in that zone cannot be shown in that
/// format.
pub uninterp spec fn rfc2822_at_offset(unix_secs: int, offset_hours: int) -> Option<Seq<char>>;

/// Calls `OffsetDateTime::from_unix_timestamp`, `UtcOffset::from_hms`,
/// `OffsetDateTime::checked_to_offset` and `OffsetDateTime::format` with
/// `Rfc2822` from the `time` crate; the text they produce is named by
/// `rfc2822_at_offset` and depends on the timestamp and the offset alone.
#[verifier::external_body]
pub(crate) fn format_rfc2822(unix_secs: i64, offset_hours: i8) -> (r: Option<String>)
    ensures
        r matches Some(t) ==> rfc2822_at_offset(unix_secs as int, offset_hours as int) == Some(t@),
        r is None ==> rfc2822_at_offset(unix_secs as int, offset_hours as int) is None,
{
    let at = OffsetDateTime::from_unix_timestamp(unix_secs).ok()?;
    let zone = UtcOffset::from_hms(offset_hours, 0, 0).ok()?;
    at.checked_to_offset(zone)?.format(&Rfc2822).ok()
}

/// Calls `OffsetDateTime::now_utc` and takes the Unix timestamp of the
/// result, in whole seconds. Nothing is stated of the value: it is the
/// time on the machine's clock.
#[verifier::external_body]
pub(crate) fn now_unix_secs() -> (r: i64) {
    OffsetDateTime::now_utc().unix_timestamp()
}

} // verus!
