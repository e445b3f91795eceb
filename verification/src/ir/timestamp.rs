//! The compilation timestamp.

use vstd::prelude::*;
use crate::text::{padded_decimal, push_padded, push_str, string_from_chars};

verus! {

/// The stamp for a moment `secs` seconds after the Unix epoch, in the
/// shape of an ISO 8601 UTC time. The date is approximate by design: every
/// year has 365 days and every month 30, the month capped at 12.
pub open spec fn timestamp_text(secs: nat) -> Seq<char> {
    let days = secs / 86400;
    let rest = secs % 86400;
    let year = 1970 + days / 365;
    let day_of_year = days % 365;
    let month = if day_of_year / 30 + 1 > 12 {
        12
    } else {
        day_of_year / 30 + 1
    };
    let day = day_of_year % 30 + 1;
    padded_decimal(year, 4) + "-"@ + padded_decimal(month, 2) + "-"@ + padded_decimal(day, 2) + "T"@
        + padded_decimal(rest / 3600, 2) + ":"@ + padded_decimal((rest % 3600) / 60, 2) + ":"@ + padded_decimal(
        rest % 60,
        2,
    ) + "Z"@
}

/// Whether `text` is the stamp of some moment.
pub open spec fn is_timestamp(text: Seq<char>) -> bool {
    exists|secs: nat| secs <= u64::MAX && text == #[trigger] timestamp_text(secs)
}

/// `SystemTime::now()`, as whole seconds since `UNIX_EPOCH`; 0 when the
/// clock stands before the epoch. Nothing is promised of the value.
#[verifier::external_body]
pub(crate) fn unix_seconds() -> u64 {
    std::time::SystemTime::now().duration_since(std::time::UNIX_EPOCH).unwrap_or_default().as_secs()
}

/// The stamp for `secs` seconds after the Unix epoch.
pub fn format_timestamp(secs: u64) -> (text: String)
    ensures
        text@ == timestamp_text(secs as nat),
{
    let days = secs / 86400;
    let rest = secs % 86400;
    let year = 1970 + days / 365;
    let day_of_year = days % 365;
    let month = if day_of_year / 30 + 1 > 12 {
        12
    } else {
        day_of_year / 30 + 1
    };
    let day = day_of_year % 30 + 1;
    let mut out: Vec<char> = Vec::new();
    push_padded(&mut out, year, 4);
    push_str(&mut out, "-");
    push_padded(&mut out, month, 2);
    push_str(&mut out, "-");
    push_padded(&mut out, day, 2);
    push_str(&mut out, "T");
    push_padded(&mut out, rest / 3600, 2);
    push_str(&mut out, ":");
    push_padded(&mut out, (rest % 3600) / 60, 2);
    push_str(&mut out, ":");
    push_padded(&mut out, rest % 60, 2);
    push_str(&mut out, "Z");
    assert(out@ =~= timestamp_text(secs as nat));
    string_from_chars(&out)
}

/// The stamp of the present moment.
pub fn generate_timestamp() -> (text: String)
    ensures
        is_timestamp(text@),
{
    let secs = unix_seconds();
    format_timestamp(secs)
}

} // verus!
