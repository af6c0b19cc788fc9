//! Maps a position on the synodic cycle to one of ten lunar-phase glyphs by a
//! weighted-bin selection, with a variant rule that can swap the new-moon and
//! full-moon glyphs for their variant faces.
//!
//! The cycle position enters as a scaled phase: the phase fraction in [0, 1]
//! multiplied by the total weight 29.53 and by 10000, rounded down. All
//! weights are whole multiples of 0.0001, so at that scale the selection is
//! exact integer arithmetic.

use vstd::prelude::*;

verus! {

/// One entry of the phase table: a glyph, a human-readable name, and a
/// selection weight in ten-thousandths.
pub struct MoonMoji {
    pub emoji: &'static str,
    pub name: &'static str,
    pub weight_e4: u64,
}

/// The total weight of the phase table, in ten-thousandths: 29.53 scaled by
/// 10000. A scaled phase of this value stands for a phase fraction of 1.
pub const TOTAL_WEIGHT_E4: u64 = 295300;

/// The selection weight of entry `i`, in ten-thousandths: the four sharp
/// phases (new, first quarter, full, last quarter) weigh 1.0, the four broad
/// phases weigh 6.3825, and the two variant entries weigh nothing.
pub open spec fn phase_weight_e4(i: int) -> int {
    if i == 0 || i == 2 || i == 4 || i == 6 { 10000 }
    else if i == 1 || i == 3 || i == 5 || i == 7 { 63825 }
    else { 0 }
}

/// The sum of the weights of the entries before `i`, in ten-thousandths.
pub open spec fn cum_weight_e4(i: int) -> int {
    if i <= 0 { 0 }
    else if i == 1 { 10000 }
    else if i == 2 { 73825 }
    else if i == 3 { 83825 }
    else if i == 4 { 147650 }
    else if i == 5 { 157650 }
    else if i == 6 { 221475 }
    else if i == 7 { 231475 }
    else { 295300 }
}

/// The weights sum to the stored total of the table: the running sums start
/// at zero, grow by one entry's weight at a time, and reach 29.53 scaled.
pub proof fn lemma_weights_sum()
    ensures
        cum_weight_e4(0) == 0,
        forall|i: int| 0 <= i < 10 ==> #[trigger] cum_weight_e4(i + 1) == cum_weight_e4(i) + phase_weight_e4(i),
        cum_weight_e4(10) == TOTAL_WEIGHT_E4,
{
}

/// The canonical bin of a scaled phase: entry `k` is selected when the scaled
/// phase lies between the cumulative weights before and through `k`. A scaled
/// phase at or past the total weight runs past the table and falls back to 0.
pub open spec fn phase_bin(scaled: int) -> int {
    if scaled < 10000 { 0 }
    else if scaled < 73825 { 1 }
    else if scaled < 83825 { 2 }
    else if scaled < 147650 { 3 }
    else if scaled < 157650 { 4 }
    else if scaled < 221475 { 5 }
    else if scaled < 231475 { 6 }
    else if scaled < 295300 { 7 }
    else { 0 }
}

/// The index returned by the weighted selection: the canonical bin, except
/// that with the variant flag set a selected new moon becomes entry 8 and a
/// selected full moon becomes entry 9. A scaled phase that runs past the
/// table selects nothing, so the variant rule does not touch it.
pub open spec fn step_phase_spec(scaled: int, variant: bool) -> int {
    if scaled >= 295300 { 0 }
    else if variant && phase_bin(scaled) == 0 { 8 }
    else if variant && phase_bin(scaled) == 4 { 9 }
    else { phase_bin(scaled) }
}

/// The glyphs of the ten phase entries, in table order: the eight canonical
/// phases of the lunar cycle, then the new-moon and full-moon variant faces.
pub open spec fn moon_glyph_spec(i: int) -> Seq<char> {
    if i == 0 { "🌑"@ }
    else if i == 1 { "🌒"@ }
    else if i == 2 { "🌓"@ }
    else if i == 3 { "🌔"@ }
    else if i == 4 { "🌕"@ }
    else if i == 5 { "🌖"@ }
    else if i == 6 { "🌗"@ }
    else if i == 7 { "🌘"@ }
    else if i == 8 { "🌚"@ }
    else { "🌝"@ }
}

/// The names of the ten phase entries, in table order.
pub open spec fn moon_name_spec(i: int) -> Seq<char> {
    if i == 0 { "New Moon"@ }
    else if i == 1 { "Waxing Crescent"@ }
    else if i == 2 { "First Quarter"@ }
    else if i == 3 { "Waxing Gibbous"@ }
    else if i == 4 { "Full Moon"@ }
    else if i == 5 { "Waning Gibbous"@ }
    else if i == 6 { "Last Quarter"@ }
    else if i == 7 { "Waning Crescent"@ }
    else if i == 8 { "New Moon *"@ }
    else { "Full Moon *"@ }
}

/// Returns entry `i` of the phase table.
pub fn phase_entry(i: usize) -> (m: MoonMoji)
    requires
        i < 10,
    ensures
        m.emoji@ == moon_glyph_spec(i as int),
        m.name@ == moon_name_spec(i as int),
        m.weight_e4 == phase_weight_e4(i as int),
{
    if i == 0 { MoonMoji { emoji: "🌑", name: "New Moon", weight_e4: 10000 } }
    else if i == 1 { MoonMoji { emoji: "🌒", name: "Waxing Crescent", weight_e4: 63825 } }
    else if i == 2 { MoonMoji { emoji: "🌓", name: "First Quarter", weight_e4: 10000 } }
    else if i == 3 { MoonMoji { emoji: "🌔", name: "Waxing Gibbous", weight_e4: 63825 } }
    else if i == 4 { MoonMoji { emoji: "🌕", name: "Full Moon", weight_e4: 10000 } }
    else if i == 5 { MoonMoji { emoji: "🌖", name: "Waning Gibbous", weight_e4: 63825 } }
    else if i == 6 { MoonMoji { emoji: "🌗", name: "Last Quarter", weight_e4: 10000 } }
    else if i == 7 { MoonMoji { emoji: "🌘", name: "Waning Crescent", weight_e4: 63825 } }
    else if i == 8 { MoonMoji { emoji: "🌚", name: "New Moon *", weight_e4: 0 } }
    else { MoonMoji { emoji: "🌝", name: "Full Moon *", weight_e4: 0 } }
}

/// Selects the canonical bin of a scaled phase by walking the table and
/// spending the scaled phase on one entry's weight at a time; the first entry
/// whose weight is not covered is selected. A scaled phase at or past the
/// total weight selects nothing and falls back to entry 0.
pub fn phase_index(scaled_phase: u64) -> (i: usize)
    ensures
        i == phase_bin(scaled_phase as int),
        i < 8,
{
    let mut acc: u64 = scaled_phase;
    let mut i: usize = 0;
    while i < 10
        invariant
            i <= 10,
            acc == scaled_phase - cum_weight_e4(i as int),
            scaled_phase >= cum_weight_e4(i as int),
        decreases 10 - i,
    {
        let w: u64 = phase_entry(i).weight_e4;
        if acc < w {
            return i;
        }
        acc = acc - w;
        i = i + 1;
    }
    0
}

/// Applies the weighted selection and the variant rule to a scaled phase.
/// With the variant flag clear the result is the canonical bin, always one of
/// the eight canonical phases.
pub fn step_phase(scaled_phase: u64, variant: bool) -> (i: usize)
    ensures
        i == step_phase_spec(scaled_phase as int, variant),
        i < 10,
        !variant ==> i == phase_bin(scaled_phase as int) && i < 8,
{
    if scaled_phase >= TOTAL_WEIGHT_E4 {
        return 0;
    }
    let idx = phase_index(scaled_phase);
    if variant && idx == 0 { 8 }
    else if variant && idx == 4 { 9 }
    else { idx }
}

/// Returns the glyph for a scaled phase: the entry picked by the weighted
/// selection and the variant rule.
pub fn phase_emoji(scaled_phase: u64, variant: bool) -> (g: &'static str)
    ensures
        g@ == moon_glyph_spec(step_phase_spec(scaled_phase as int, variant)),
{
    let i = step_phase(scaled_phase, variant);
    phase_entry(i).emoji
}

/// The bins are exactly the weighted intervals of the table: a scaled phase
/// below the total weight selects canonical entry `k` precisely when it lies
/// at or past the cumulative weight before `k` and below the cumulative
/// weight through `k`.
pub proof fn lemma_phase_bin_characterisation(s: int, k: int)
    requires
        0 <= s < 295300,
        0 <= k < 8,
    ensures
        phase_bin(s) == k <==> cum_weight_e4(k) <= s < cum_weight_e4(k + 1),
{
}

/// With the variant rule disabled the selection is monotone in the phase: a
/// later point of the cycle never selects an earlier canonical bin.
pub proof fn lemma_phase_bin_monotone(s1: int, s2: int)
    requires
        0 <= s1 <= s2 < 295300,
    ensures
        phase_bin(s1) <= phase_bin(s2),
{
}

} // verus!
