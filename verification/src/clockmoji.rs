//! Maps a local wall-clock time of day to one of 24 clock-face glyphs, one per
//! half hour, rounding to the nearest half hour.

use vstd::prelude::*;
use chrono::Timelike;

verus! {

/// A local wall-clock time of day, held as whole seconds since midnight.
///
/// A well-formed value lies below 86400; the index arithmetic stays
/// well-defined even for an out-of-range value a host might hand over.
pub struct LocalTime {
    pub secs: u32,
}

/// Seconds in one day.
pub const SECS_PER_DAY: u64 = 86400;

/// Seconds in one half hour, the width of one clock-face bin.
pub const HALF_HOUR_SECS: u64 = 1800;

/// The index of the clock-face glyph shown for a time of day: a quarter hour
/// is added so that the half-hour bin is the nearest one rather than the one
/// below, and the result is reduced modulo the 24 glyphs.
pub open spec fn clock_index_spec(secs: int) -> int {
    (((secs + 900) % 86400) / 1800) % 24
}

/// Computes the clock-face index for `secs` seconds past local midnight.
pub fn clock_index(secs: u32) -> (i: usize)
    ensures
        i == clock_index_spec(secs as int),
        i < 24,
{
    let shifted: u64 = ((secs as u64) + 900) % SECS_PER_DAY;
    let i: u64 = (shifted / HALF_HOUR_SECS) % 24;
    i as usize
}

/// The 24 clock-face glyphs in display order: 12:00, 12:30, 1:00, 1:30, ...,
/// 11:00, 11:30.
pub open spec fn clock_glyph_spec(i: int) -> Seq<char> {
    if i == 0 { "🕛"@ }
    else if i == 1 { "🕧"@ }
    else if i == 2 { "🕐"@ }
    else if i == 3 { "🕜"@ }
    else if i == 4 { "🕑"@ }
    else if i == 5 { "🕝"@ }
    else if i == 6 { "🕒"@ }
    else if i == 7 { "🕞"@ }
    else if i == 8 { "🕓"@ }
    else if i == 9 { "🕟"@ }
    else if i == 10 { "🕔"@ }
    else if i == 11 { "🕠"@ }
    else if i == 12 { "🕕"@ }
    else if i == 13 { "🕡"@ }
    else if i == 14 { "🕖"@ }
    else if i == 15 { "🕢"@ }
    else if i == 16 { "🕗"@ }
    else if i == 17 { "🕣"@ }
    else if i == 18 { "🕘"@ }
    else if i == 19 { "🕤"@ }
    else if i == 20 { "🕙"@ }
    else if i == 21 { "🕥"@ }
    else if i == 22 { "🕚"@ }
    else { "🕦"@ }
}

/// Returns the clock-face glyph at `i`.
pub fn clock_glyph(i: usize) -> (g: &'static str)
    requires
        i < 24,
    ensures
        g@ == clock_glyph_spec(i as int),
{
    if i == 0 { "🕛" }
    else if i == 1 { "🕧" }
    else if i == 2 { "🕐" }
    else if i == 3 { "🕜" }
    else if i == 4 { "🕑" }
    else if i == 5 { "🕝" }
    else if i == 6 { "🕒" }
    else if i == 7 { "🕞" }
    else if i == 8 { "🕓" }
    else if i == 9 { "🕟" }
    else if i == 10 { "🕔" }
    else if i == 11 { "🕠" }
    else if i == 12 { "🕕" }
    else if i == 13 { "🕡" }
    else if i == 14 { "🕖" }
    else if i == 15 { "🕢" }
    else if i == 16 { "🕗" }
    else if i == 17 { "🕣" }
    else if i == 18 { "🕘" }
    else if i == 19 { "🕤" }
    else if i == 20 { "🕙" }
    else if i == 21 { "🕥" }
    else if i == 22 { "🕚" }
    else { "🕦" }
}

/// Relies on chrono's `Local::now` and `Timelike::num_seconds_from_midnight`
/// for the current local time of day: the number of non-leap seconds past the
/// last midnight, which lies in 0..=86399.
#[verifier::external_body]
fn local_secs_now() -> (s: u32)
    ensures
        s < 86400,
{
    chrono::Local::now().time().num_seconds_from_midnight()
}

/// Returns the clock-face glyph for the given local time of day, or for the
/// current one when `time` is `None`.
pub fn get_emoji(time: &Option<LocalTime>) -> (g: &'static str)
    ensures
        time matches Some(t) ==> g@ == clock_glyph_spec(clock_index_spec(t.secs as int)),
        exists|i: int| 0 <= i < 24 && g@ == clock_glyph_spec(i),
{
    let secs: u32 = match time {
        Some(t) => t.secs,
        None => local_secs_now(),
    };
    let i = clock_index(secs);
    clock_glyph(i)
}

/// Two times of day 29 minutes 59 seconds apart show the same glyph whenever
/// the quarter-hour shift leaves both in the same half-hour bin of the day.
pub proof fn lemma_same_bin_same_glyph(s1: int, s2: int)
    requires
        0 <= s1 < 86400,
        s2 == (s1 + 1799) % 86400,
        ((s1 + 900) % 86400) / 1800 == ((s2 + 900) % 86400) / 1800,
    ensures
        clock_index_spec(s1) == clock_index_spec(s2),
{
}

} // verus!
