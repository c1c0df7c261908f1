//! The grayscale-to-glyph table: each raw byte is bucketed into one of
//! eight brightness ranges, each range showing as one fixed character.
//! Used by the main video grid and the waveform sub-grid alike.

use vstd::prelude::*;

verus! {

/// The brightness bucket of a byte: one eighth of the scale per step
/// of 31, the top bucket absorbing the remainder of the range.
pub open spec fn glyph_bucket(level: u8) -> int {
    if level as int / 31 > 7 {
        7
    } else {
        level as int / 31
    }
}

/// The display glyph for each brightness bucket, dimmest first.
pub open spec fn spec_gray_glyph(level: u8) -> char {
    let b = glyph_bucket(level);
    if b == 0 {
        ' '
    } else if b == 1 {
        '·'
    } else if b == 2 {
        '-'
    } else if b == 3 {
        ' '
    } else if b == 4 {
        'x'
    } else if b == 5 {
        '━'
    } else if b == 6 {
        '✖'
    } else {
        '8'
    }
}

/// The character a grayscale sample shows as on the grid.
pub fn gray_to_char(level: u8) -> (c: char)
    ensures
        c == spec_gray_glyph(level),
{
    let step: u8 = level / 31;
    let bucket: u8 = if step > 7 {
        7
    } else {
        step
    };
    match bucket {
        0 => ' ',
        1 => '·',
        2 => '-',
        3 => ' ',
        4 => 'x',
        5 => '━',
        6 => '✖',
        _ => '8',
    }
}

} // verus!
