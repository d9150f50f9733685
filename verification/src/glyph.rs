//! Glyph ramps: the ordered glyph sets of each character mode, the mapping
//! from brightness to a ramp index, and the foreground colour policy.

use vstd::prelude::*;
use vstd::arithmetic::div_mod::{lemma_div_is_ordered, lemma_fundamental_div_mod_converse};
use vstd::arithmetic::mul::lemma_mul_inequality;

use crate::args::CharacterMode;

verus! {

/// The glyph ramp of a character mode, ordered from darkest to lightest.
pub open spec fn ramp_spec(mode: CharacterMode) -> Seq<char> {
    match mode {
        CharacterMode::Block => seq!['\u{2588}'],
        CharacterMode::Dots => seq!['\u{2022}'],
        CharacterMode::Ascii => seq!['@', '#', '%', '*', '+', '=', '-', ':', '.', ' '],
        CharacterMode::AsciiExtended => seq![
            ' ', '.', '\'', '`', '^', '"', ',', ':', ';', 'I', 'l', '!',
            'i', '>', '<', '~', '+', '_', '-', '?', ']', '[', '}', '{',
            '1', ')', '(', '|', '\\', '/', '/', 't', 'f', 'j', 'r', 'x',
            'n', 'u', 'v', 'c', 'z', 'X', 'U', 'Y', 'J', 'C', 'L', 'Q',
            '0', 'O', 'Z', 'm', 'w', 'q', 'p', 'b', 'd', 'k', 'h', 'a',
            'o', '*', '#', 'M', '&', 'W', '&', '8', '%', 'B', '@', '$',
        ],
        CharacterMode::Numbers => seq!['1', '7', '4', '2', '3', '5', '0', '6', '9', '8'],
        CharacterMode::Blocks => seq!['\u{2591}', '\u{2592}'],
    }
}

/// The ramp actually indexed while painting: without colour, a blank glyph
/// is appended so the brightest cells erase to the background, unless the
/// ramp already ends in a blank.
pub open spec fn effective_ramp_spec(mode: CharacterMode, no_color: bool) -> Seq<char> {
    let base = ramp_spec(mode);
    if no_color && base.last() != ' ' {
        base.push(' ')
    } else {
        base
    }
}

/// Builds the glyph ramp of `mode`, with the blank appended when painting
/// without colour.
pub fn glyph_ramp(mode: &CharacterMode, no_color: bool) -> (ramp: Vec<char>)
    ensures
        ramp@ == effective_ramp_spec(*mode, no_color),
        1 <= ramp@.len() <= 100,
{
    let mut v: Vec<char> = Vec::new();
    match mode {
        CharacterMode::Block => {
            v.push('\u{2588}');
        }
        CharacterMode::Dots => {
            v.push('\u{2022}');
        }
        CharacterMode::Ascii => {
            v.push('@'); v.push('#'); v.push('%'); v.push('*'); v.push('+'); v.push('=');
            v.push('-'); v.push(':'); v.push('.'); v.push(' ');
        }
        CharacterMode::AsciiExtended => {
            v.push(' '); v.push('.'); v.push('\''); v.push('`'); v.push('^'); v.push('"');
            v.push(','); v.push(':'); v.push(';'); v.push('I'); v.push('l'); v.push('!');
            v.push('i'); v.push('>'); v.push('<'); v.push('~'); v.push('+'); v.push('_');
            v.push('-'); v.push('?'); v.push(']'); v.push('['); v.push('}'); v.push('{');
            v.push('1'); v.push(')'); v.push('('); v.push('|'); v.push('\\'); v.push('/');
            v.push('/'); v.push('t'); v.push('f'); v.push('j'); v.push('r'); v.push('x');
            v.push('n'); v.push('u'); v.push('v'); v.push('c'); v.push('z'); v.push('X');
            v.push('U'); v.push('Y'); v.push('J'); v.push('C'); v.push('L'); v.push('Q');
            v.push('0'); v.push('O'); v.push('Z'); v.push('m'); v.push('w'); v.push('q');
            v.push('p'); v.push('b'); v.push('d'); v.push('k'); v.push('h'); v.push('a');
            v.push('o'); v.push('*'); v.push('#'); v.push('M'); v.push('&'); v.push('W');
            v.push('&'); v.push('8'); v.push('%'); v.push('B'); v.push('@'); v.push('$');
        }
        CharacterMode::Numbers => {
            v.push('1'); v.push('7'); v.push('4'); v.push('2'); v.push('3'); v.push('5');
            v.push('0'); v.push('6'); v.push('9'); v.push('8');
        }
        CharacterMode::Blocks => {
            v.push('\u{2591}'); v.push('\u{2592}');
        }
    }
    assert(v@ =~= ramp_spec(*mode));
    if no_color {
        let last = v[v.len() - 1];
        if last != ' ' {
            v.push(' ');
        }
    }
    assert(v@ =~= effective_ramp_spec(*mode, no_color));
    v
}

/// The ramp slot of a brightness: the nearest index when brightness is
/// scaled from `0..=255` onto `0..=len - 1` (half-way values round up).
pub open spec fn ramp_index_spec(grey: int, len: int) -> int {
    (2 * grey * (len - 1) + 255) / 510
}

/// Index into a ramp of `len` glyphs for a cell of brightness `grey`.
/// Brightness 0 lands on the first glyph and brightness 255 on the last.
pub fn ramp_index(grey: u8, len: usize) -> (index: usize)
    requires
        1 <= len <= 100,
    ensures
        index == ramp_index_spec(grey as int, len as int),
        index < len,
        grey == 0 ==> index == 0,
        grey == 255 ==> index == len - 1,
{
    proof {
        assert(2 * (grey as int) * (len - 1) <= 510 * (len - 1)) by (nonlinear_arith)
            requires grey <= 255 && len >= 1;
        assert(510 * (len as int - 1) + 255 <= 51000) by (nonlinear_arith)
            requires len <= 100;
    }
    let numerator: usize = 2 * (grey as usize) * (len - 1) + 255;
    let index: usize = numerator / 510;
    proof {
        // numerator <= 510 * (len - 1) + 255, and that bound divided by 510 is len - 1
        lemma_fundamental_div_mod_converse(510 * (len - 1) + 255, 510, len as int - 1, 255);
        lemma_div_is_ordered(numerator as int, 510 * (len - 1) + 255, 510);
        assert(grey == 0 ==> 2 * (grey as int) * (len as int - 1) == 0) by (nonlinear_arith);
    }
    index
}

/// Brightness-to-glyph selection is monotonic: a brighter sample never maps
/// to an earlier (darker) ramp slot.
pub proof fn lemma_ramp_index_monotonic(g1: int, g2: int, len: int)
    requires
        0 <= g1 <= g2 <= 255,
        len >= 1,
    ensures
        ramp_index_spec(g1, len) <= ramp_index_spec(g2, len),
{
    lemma_mul_inequality(2 * g1, 2 * g2, len - 1);
    lemma_div_is_ordered(2 * g1 * (len - 1) + 255, 2 * g2 * (len - 1) + 255, 510);
}

/// The foreground colour painted with a glyph: the pixel colour itself in
/// the solid modes, and a fixed grey over the coloured background in the
/// density-ramp modes.
pub open spec fn foreground_spec(mode: CharacterMode, rgb: (u8, u8, u8)) -> (u8, u8, u8) {
    match mode {
        CharacterMode::Block | CharacterMode::Dots => rgb,
        _ => (128, 128, 128),
    }
}

/// Foreground colour for a painted cell of colour `rgb`.
pub fn foreground_for(mode: &CharacterMode, rgb: (u8, u8, u8)) -> (fg: (u8, u8, u8))
    ensures
        fg == foreground_spec(*mode, rgb),
{
    match mode {
        CharacterMode::Block | CharacterMode::Dots => rgb,
        _ => (128, 128, 128),
    }
}

} // verus!
