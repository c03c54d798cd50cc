//! The brightness ramp: a fixed, ordered run of 66 characters, from the one
//! that looks darkest on a terminal (a space) to the one that looks brightest
//! (`$`), and the mapping from an 8-bit brightness value to one of them.

use vstd::prelude::*;

verus! {

/// The character at position `i` of the ramp, darkest first.
///
/// The ramp content is part of the library's contract: it determines the
/// visual output. Position 0 is a space; position 65 is `$`. Out-of-range
/// positions are mapped to the ends so that the function is total.
pub open spec fn ramp_char(i: int) -> char {
    if i <= 0 {
        ' '
    } else if i == 1 {
        '`'
    } else if i == 2 {
        '^'
    } else if i == 3 {
        '"'
    } else if i == 4 {
        ','
    } else if i == 5 {
        ':'
    } else if i == 6 {
        ';'
    } else if i == 7 {
        'I'
    } else if i == 8 {
        'l'
    } else if i == 9 {
        '!'
    } else if i == 10 {
        'i'
    } else if i == 11 {
        '~'
    } else if i == 12 {
        '+'
    } else if i == 13 {
        '_'
    } else if i == 14 {
        '-'
    } else if i == 15 {
        '?'
    } else if i == 16 {
        ']'
    } else if i == 17 {
        '['
    } else if i == 18 {
        '}'
    } else if i == 19 {
        '{'
    } else if i == 20 {
        '1'
    } else if i == 21 {
        ')'
    } else if i == 22 {
        '('
    } else if i == 23 {
        '|'
    } else if i == 24 {
        '\\'
    } else if i == 25 {
        '/'
    } else if i == 26 {
        't'
    } else if i == 27 {
        'f'
    } else if i == 28 {
        'j'
    } else if i == 29 {
        'r'
    } else if i == 30 {
        'x'
    } else if i == 31 {
        'n'
    } else if i == 32 {
        'u'
    } else if i == 33 {
        'v'
    } else if i == 34 {
        'c'
    } else if i == 35 {
        'z'
    } else if i == 36 {
        'X'
    } else if i == 37 {
        'Y'
    } else if i == 38 {
        'U'
    } else if i == 39 {
        'J'
    } else if i == 40 {
        'C'
    } else if i == 41 {
        'L'
    } else if i == 42 {
        'Q'
    } else if i == 43 {
        '0'
    } else if i == 44 {
        'O'
    } else if i == 45 {
        'Z'
    } else if i == 46 {
        'm'
    } else if i == 47 {
        'w'
    } else if i == 48 {
        'q'
    } else if i == 49 {
        'p'
    } else if i == 50 {
        'd'
    } else if i == 51 {
        'b'
    } else if i == 52 {
        'k'
    } else if i == 53 {
        'h'
    } else if i == 54 {
        'a'
    } else if i == 55 {
        'o'
    } else if i == 56 {
        '*'
    } else if i == 57 {
        '#'
    } else if i == 58 {
        'M'
    } else if i == 59 {
        'W'
    } else if i == 60 {
        '&'
    } else if i == 61 {
        '8'
    } else if i == 62 {
        '%'
    } else if i == 63 {
        'B'
    } else if i == 64 {
        '@'
    } else {
        '$'
    }
}

/// The ramp position a brightness value selects: the brightness is scaled
/// from the range 0..=255 onto the 66 ramp positions and truncated, and the
/// top value 255 (which would scale to 66, one past the end) is clamped to
/// the last position.
pub open spec fn glyph_index(brightness: u8) -> int {
    let scaled = brightness * 66 / 255;
    if scaled > 65 {
        65
    } else {
        scaled
    }
}

/// The glyph a brightness value maps to.
pub open spec fn glyph_spec(brightness: u8) -> char {
    ramp_char(glyph_index(brightness))
}

/// Maps a brightness value to its ramp character. Total over all 256 inputs.
pub fn get_ascii_from_brightness(brightness: u8) -> (c: char)
    ensures
        c == glyph_spec(brightness),
{
    let scaled: usize = (brightness as usize) * 66 / 255;
    let index: usize = if scaled > 65 {
        65
    } else {
        scaled
    };
    match index {
        0 => ' ',
        1 => '`',
        2 => '^',
        3 => '"',
        4 => ',',
        5 => ':',
        6 => ';',
        7 => 'I',
        8 => 'l',
        9 => '!',
        10 => 'i',
        11 => '~',
        12 => '+',
        13 => '_',
        14 => '-',
        15 => '?',
        16 => ']',
        17 => '[',
        18 => '}',
        19 => '{',
        20 => '1',
        21 => ')',
        22 => '(',
        23 => '|',
        24 => '\\',
        25 => '/',
        26 => 't',
        27 => 'f',
        28 => 'j',
        29 => 'r',
        30 => 'x',
        31 => 'n',
        32 => 'u',
        33 => 'v',
        34 => 'c',
        35 => 'z',
        36 => 'X',
        37 => 'Y',
        38 => 'U',
        39 => 'J',
        40 => 'C',
        41 => 'L',
        42 => 'Q',
        43 => '0',
        44 => 'O',
        45 => 'Z',
        46 => 'm',
        47 => 'w',
        48 => 'q',
        49 => 'p',
        50 => 'd',
        51 => 'b',
        52 => 'k',
        53 => 'h',
        54 => 'a',
        55 => 'o',
        56 => '*',
        57 => '#',
        58 => 'M',
        59 => 'W',
        60 => '&',
        61 => '8',
        62 => '%',
        63 => 'B',
        64 => '@',
        _ => '$',
    }
}

/// Every brightness value selects a ramp position between 0 and 65: the
/// glyph lookup is total, with no out-of-range access for any input.
pub proof fn lemma_glyph_index_in_range()
    ensures
        forall|b: u8| 0 <= #[trigger] glyph_index(b) <= 65,
{
}

/// The ends of the brightness range map to the ends of the ramp: brightness 0
/// yields the space character and brightness 255 yields `$`, the last ramp
/// character.
pub proof fn lemma_glyph_extremes()
    ensures
        glyph_spec(0) == ' ',
        glyph_spec(255) == '$',
{
}

} // verus!
