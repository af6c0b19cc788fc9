use timemoji::clockmoji::{clock_glyph, clock_index, get_emoji, LocalTime};

const CLOCKS: [&str; 24] = [
    "🕛", "🕧", "🕐", "🕜", "🕑", "🕝", "🕒", "🕞", "🕓", "🕟", "🕔", "🕠",
    "🕕", "🕡", "🕖", "🕢", "🕗", "🕣", "🕘", "🕤", "🕙", "🕥", "🕚", "🕦",
];

#[test]
fn midnight_is_twelve() {
    assert_eq!(clock_index(0), 0);
    assert_eq!(get_emoji(&Some(LocalTime { secs: 0 })), "🕛");
}

#[test]
fn last_second_before_quarter_past_is_twelve() {
    // 00:14:59
    assert_eq!(clock_index(14 * 60 + 59), 0);
    assert_eq!(get_emoji(&Some(LocalTime { secs: 14 * 60 + 59 })), "🕛");
}

#[test]
fn quarter_past_midnight_is_half_past_twelve() {
    // 00:15:00
    assert_eq!(clock_index(15 * 60), 1);
    assert_eq!(get_emoji(&Some(LocalTime { secs: 15 * 60 })), "🕧");
}

#[test]
fn shortly_before_quarter_to_one_pm_wraps_to_half_past_twelve() {
    // 12:44:59: shifted seconds are 46799, bin 25, which wraps to glyph 1
    let secs = 12 * 3600 + 44 * 60 + 59;
    assert_eq!(clock_index(secs), 1);
    assert_eq!(get_emoji(&Some(LocalTime { secs })), "🕧");
}

#[test]
fn late_evening_wraps_to_midnight_glyph() {
    // 23:50:00 shifted by a quarter hour lands in the first bin of the next day
    let secs = 23 * 3600 + 50 * 60;
    assert_eq!(clock_index(secs), 0);
    assert_eq!(get_emoji(&Some(LocalTime { secs })), "🕛");
}

#[test]
fn every_half_hour_has_its_own_glyph() {
    for (i, glyph) in CLOCKS.iter().enumerate() {
        // the middle of bin i, before the quarter-hour shift
        let secs = (i as u32) * 1800 + 30;
        assert_eq!(clock_index(secs), i);
        assert_eq!(get_emoji(&Some(LocalTime { secs })), *glyph);
    }
}

#[test]
fn glyph_table_is_in_display_order() {
    for (i, glyph) in CLOCKS.iter().enumerate() {
        assert_eq!(clock_glyph(i), *glyph);
    }
}

#[test]
fn current_time_yields_a_clock_glyph() {
    let g = get_emoji(&None);
    assert!(CLOCKS.contains(&g));
}
