//! Time-to-emoji mappers: a clock-face glyph for a local wall-clock time and a
//! lunar-phase glyph for a position on the synodic cycle.

pub mod clockmoji;
pub mod moonmoji;
