use termplay::glyph::{foreground_for, glyph_ramp, ramp_index};
use termplay::args::CharacterMode;
use termplay::pixel::{exceeds_threshold, get_grey, rgb_distance_squared};

#[test]
fn grey_of_black_is_zero() {
    assert_eq!(get_grey(0, 0, 0), 0);
}

#[test]
fn grey_of_white_is_full() {
    assert_eq!(get_grey(255, 255, 255), 255);
}

#[test]
fn grey_weights_follow_luma() {
    // 2126 * 255 / 10000, 7152 * 255 / 10000, 722 * 255 / 10000
    assert_eq!(get_grey(255, 0, 0), 54);
    assert_eq!(get_grey(0, 255, 0), 182);
    assert_eq!(get_grey(0, 0, 255), 18);
}

#[test]
fn distance_squared_is_euclidean() {
    assert_eq!(rgb_distance_squared((0, 0, 0), (3, 4, 0)), 25);
    assert_eq!(rgb_distance_squared((10, 10, 10), (10, 10, 10)), 0);
    assert_eq!(rgb_distance_squared((255, 0, 0), (0, 255, 0)), 2 * 255 * 255);
}

#[test]
fn threshold_compares_distance_not_squares_of_parts() {
    // distance exactly 2 against threshold 2: repaint
    assert!(exceeds_threshold((2, 0, 0), (0, 0, 0), 2));
    // distance 1 against threshold 2: keep
    assert!(!exceeds_threshold((1, 0, 0), (0, 0, 0), 2));
    // threshold 0 repaints everything
    assert!(exceeds_threshold((5, 5, 5), (5, 5, 5), 0));
}

#[test]
fn ramp_lengths_per_mode() {
    assert_eq!(glyph_ramp(&CharacterMode::Block, false).len(), 1);
    assert_eq!(glyph_ramp(&CharacterMode::Dots, false).len(), 1);
    assert_eq!(glyph_ramp(&CharacterMode::Ascii, false).len(), 10);
    assert_eq!(glyph_ramp(&CharacterMode::AsciiExtended, false).len(), 72);
    assert_eq!(glyph_ramp(&CharacterMode::Numbers, false).len(), 10);
    assert_eq!(glyph_ramp(&CharacterMode::Blocks, false).len(), 2);
}

#[test]
fn ramp_contents_samples() {
    let block = glyph_ramp(&CharacterMode::Block, false);
    assert_eq!(block[0], '\u{2588}');
    let ascii = glyph_ramp(&CharacterMode::Ascii, false);
    assert_eq!(ascii[0], '@');
    assert_eq!(ascii[9], ' ');
    let numbers = glyph_ramp(&CharacterMode::Numbers, false);
    assert_eq!(numbers, vec!['1', '7', '4', '2', '3', '5', '0', '6', '9', '8']);
    let blocks = glyph_ramp(&CharacterMode::Blocks, false);
    assert_eq!(blocks, vec!['\u{2591}', '\u{2592}']);
}

#[test]
fn colourless_ramp_ends_in_a_blank() {
    // a blank is appended when missing
    let block = glyph_ramp(&CharacterMode::Block, true);
    assert_eq!(block, vec!['\u{2588}', ' ']);
    // and left alone when already there
    let ascii = glyph_ramp(&CharacterMode::Ascii, true);
    assert_eq!(ascii.len(), 10);
    assert_eq!(ascii[9], ' ');
}

#[test]
fn darkest_maps_to_first_glyph_and_brightest_to_last() {
    for len in 1..=100 {
        assert_eq!(ramp_index(0, len), 0);
        assert_eq!(ramp_index(255, len), len - 1);
    }
}

#[test]
fn ramp_index_is_monotonic_in_brightness() {
    for len in [1usize, 2, 10, 72, 100] {
        let mut previous = 0;
        for grey in 0..=255u8 {
            let index = ramp_index(grey, len);
            assert!(index >= previous);
            assert!(index < len);
            previous = index;
        }
    }
}

#[test]
fn ramp_index_rounds_to_nearest() {
    // 128/255 * 9 = 4.518..., rounds to 5
    assert_eq!(ramp_index(128, 10), 5);
    // 127/255 * 9 = 4.482..., rounds to 4
    assert_eq!(ramp_index(127, 10), 4);
}

#[test]
fn foreground_policy_per_mode() {
    let rgb = (10, 20, 30);
    assert_eq!(foreground_for(&CharacterMode::Block, rgb), rgb);
    assert_eq!(foreground_for(&CharacterMode::Dots, rgb), rgb);
    assert_eq!(foreground_for(&CharacterMode::Ascii, rgb), (128, 128, 128));
    assert_eq!(foreground_for(&CharacterMode::AsciiExtended, rgb), (128, 128, 128));
    assert_eq!(foreground_for(&CharacterMode::Numbers, rgb), (128, 128, 128));
    assert_eq!(foreground_for(&CharacterMode::Blocks, rgb), (128, 128, 128));
}
