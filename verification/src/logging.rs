//! The log's time stamps: wall-clock time of day in UTC, to the millisecond.

use vstd::prelude::*;
use crate::text::{decimal, pad_left, push_decimal_padded, string_of};

verus! {

/// `HH:MM:SS.mmm` for a time `total_secs` seconds and `millis` milliseconds
/// after midnight of some day (UTC), with two-digit fields and at least three
/// digits of milliseconds.
pub open spec fn time_of_day_spec(total_secs: u64, millis: u32) -> Seq<char> {
    pad_left(decimal(((total_secs / 3600) % 24) as nat), 2, '0') + seq![':'] + pad_left(
        decimal(((total_secs / 60) % 60) as nat),
        2,
        '0',
    ) + seq![':'] + pad_left(decimal((total_secs % 60) as nat), 2, '0') + seq!['.'] + pad_left(
        decimal(millis as nat),
        3,
        '0',
    )
}

/// The time of day, `HH:MM:SS.mmm` in UTC, of a time `total_secs` seconds and
/// `millis` milliseconds after the Unix epoch.
pub fn time_of_day_text(total_secs: u64, millis: u32) -> (r: String)
    ensures
        r@ == time_of_day_spec(total_secs, millis),
{
    let mut out: Vec<char> = Vec::new();
    push_decimal_padded(&mut out, (total_secs / 3600) % 24, 2);
    out.push(':');
    push_decimal_padded(&mut out, (total_secs / 60) % 60, 2);
    out.push(':');
    push_decimal_padded(&mut out, total_secs % 60, 2);
    out.push('.');
    push_decimal_padded(&mut out, millis as u64, 3);
    assert(out@ =~= time_of_day_spec(total_secs, millis));
    string_of(&out)
}

} // verus!
