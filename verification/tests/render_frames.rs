use termplay::args::{Args, CharacterMode, HardwareAcceleration, ScaleMode};
use termplay::frame::Frame;
use termplay::sampler::{render_target_size, step_size, x_offset};
use termplay::transport::DurationType;
use termplay::video::Video;

fn base_args() -> Args {
    Args {
        url: String::from("clip.mp4"),
        pixel_clear_distance: None,
        mode: None,
        scale: None,
        remove_fps_cap: false,
        hw_accel: None,
        fullscreen: false,
        no_color: false,
    }
}

fn frame_from_pixels(width: usize, height: usize, pixels: &[(u8, u8, u8)]) -> Frame {
    let mut data = Vec::new();
    for &(r, g, b) in pixels {
        data.push(r);
        data.push(g);
        data.push(b);
    }
    Frame::new(width, height, data).unwrap()
}

#[test]
fn stride_formula_and_floor() {
    // 80 / (24 - 2) - 2 = 1, clamped up to the minimum of 2
    assert_eq!(step_size(80, 24), 2);
    // 300 / (27 - 2) - 2 = 10
    assert_eq!(step_size(300, 27), 10);
    // degenerate terminals fall back to the minimum
    assert_eq!(step_size(80, 2), 2);
    assert_eq!(step_size(80, 1), 2);
    assert_eq!(step_size(0, 24), 2);
}

#[test]
fn centering_offset() {
    assert_eq!(x_offset(40, 100), 30);
    assert_eq!(x_offset(100, 100), 0);
    assert_eq!(x_offset(200, 100), 0);
}

#[test]
fn render_target_reserves_hud_rows() {
    // stride 2: 24 rows cover 48 pixel rows, 8 of which go to the HUD
    assert_eq!(render_target_size(80, 24, false), (80, 40));
    assert_eq!(render_target_size(80, 24, true), (80, 48));
}

#[test]
fn player_defaults_from_args() {
    let video = Video::from_args(base_args());
    assert_eq!(video.url, "clip.mp4");
    assert_eq!(video.title, "");
    assert_eq!(video.fps, 0);
    assert!(video.last_frame.is_none());
    assert_eq!(video.character_mode, CharacterMode::Block);
    assert_eq!(video.pixel_clear_distance, 2);
    assert_eq!(video.scale_mode, ScaleMode::Fit);
    assert_eq!(video.hw_accel, HardwareAcceleration::Disabled);
    assert_eq!(video.render_size, (0, 0));
    assert!(!video.live);
}

#[test]
fn first_frame_repaints_every_sampled_cell() {
    let mut video = Video::from_args(base_args());
    let frame = frame_from_pixels(2, 1, &[(255, 0, 0), (0, 255, 0)]);
    // terminal 10x10: stride 2, frame 2 wide -> centering offset 4, header offset 2
    let ops = video.write_frame(frame, 10, 10);
    assert_eq!(ops.len(), 2);
    assert_eq!((ops[0].col, ops[0].row), (4, 2));
    assert_eq!((ops[1].col, ops[1].row), (5, 2));
    assert_eq!(ops[0].glyph, '\u{2588}');
    assert_eq!(ops[0].bg, Some((255, 0, 0)));
    assert_eq!(ops[0].fg, Some((255, 0, 0)));
    assert_eq!(ops[1].bg, Some((0, 255, 0)));
    assert_eq!(ops[1].fg, Some((0, 255, 0)));
}

#[test]
fn unchanged_frame_paints_nothing() {
    let mut video = Video::from_args(base_args());
    let pixels = [(255, 0, 0), (0, 255, 0)];
    let ops = video.write_frame(frame_from_pixels(2, 1, &pixels), 10, 10);
    assert_eq!(ops.len(), 2);
    let ops = video.write_frame(frame_from_pixels(2, 1, &pixels), 10, 10);
    assert_eq!(ops.len(), 0);
}

#[test]
fn cell_repaints_iff_distance_reaches_threshold() {
    let mut video = Video::from_args(base_args());
    let first = [(100, 100, 100), (100, 100, 100)];
    video.write_frame(frame_from_pixels(2, 1, &first), 10, 10);
    // one cell moves by distance 1 (below the default threshold of 2), the
    // other by distance 2 exactly
    let second = [(100, 100, 101), (100, 100, 102)];
    let ops = video.write_frame(frame_from_pixels(2, 1, &second), 10, 10);
    assert_eq!(ops.len(), 1);
    assert_eq!((ops[0].col, ops[0].row), (5, 2));
    assert_eq!(ops[0].bg, Some((100, 100, 102)));
}

#[test]
fn resize_of_the_frame_forces_a_full_repaint() {
    let mut video = Video::from_args(base_args());
    video.write_frame(frame_from_pixels(2, 1, &[(9, 9, 9), (9, 9, 9)]), 10, 10);
    let ops = video.write_frame(frame_from_pixels(1, 1, &[(9, 9, 9)]), 10, 10);
    assert_eq!(ops.len(), 1);
}

#[test]
fn vertical_stride_skips_pixel_rows() {
    let mut video = Video::from_args(base_args());
    // four pixel rows at stride 2: rows 0 and 2 are sampled
    let pixels: Vec<(u8, u8, u8)> = (0..4u8).map(|y| (y * 10, 0, 0)).collect();
    let ops = video.write_frame(frame_from_pixels(1, 4, &pixels), 10, 10);
    assert_eq!(ops.len(), 2);
    assert_eq!((ops[0].col, ops[0].row), (4, 2));
    assert_eq!((ops[1].col, ops[1].row), (4, 3));
    assert_eq!(ops[0].bg, Some((0, 0, 0)));
    assert_eq!(ops[1].bg, Some((20, 0, 0)));
}

#[test]
fn colour_escapes_are_deduplicated() {
    let mut video = Video::from_args(base_args());
    // three cells of one colour, then one different
    let pixels = [(7, 7, 7), (7, 7, 7), (7, 7, 7), (200, 0, 0)];
    let ops = video.write_frame(frame_from_pixels(4, 1, &pixels), 10, 10);
    assert_eq!(ops.len(), 4);
    assert_eq!(ops[0].bg, Some((7, 7, 7)));
    assert_eq!(ops[0].fg, Some((7, 7, 7)));
    assert_eq!(ops[1].bg, None);
    assert_eq!(ops[1].fg, None);
    assert_eq!(ops[2].bg, None);
    assert_eq!(ops[2].fg, None);
    assert_eq!(ops[3].bg, Some((200, 0, 0)));
    assert_eq!(ops[3].fg, Some((200, 0, 0)));
}

#[test]
fn density_modes_keep_a_grey_foreground() {
    let mut args = base_args();
    args.mode = Some(CharacterMode::Ascii);
    let mut video = Video::from_args(args);
    let ops = video.write_frame(frame_from_pixels(2, 1, &[(0, 0, 0), (255, 255, 255)]), 10, 10);
    assert_eq!(ops.len(), 2);
    // darkest pixel: densest glyph; brightest: blank
    assert_eq!(ops[0].glyph, '@');
    assert_eq!(ops[1].glyph, ' ');
    assert_eq!(ops[0].fg, Some((128, 128, 128)));
    assert_eq!(ops[0].bg, Some((0, 0, 0)));
    // the grey foreground is set once and deduplicated after
    assert_eq!(ops[1].fg, None);
    assert_eq!(ops[1].bg, Some((255, 255, 255)));
}

#[test]
fn colourless_mode_emits_no_colour_at_all() {
    let mut args = base_args();
    args.no_color = true;
    let mut video = Video::from_args(args);
    let ops = video.write_frame(frame_from_pixels(2, 1, &[(0, 0, 0), (255, 255, 255)]), 10, 10);
    assert_eq!(ops.len(), 2);
    assert!(ops.iter().all(|op| op.fg.is_none() && op.bg.is_none()));
    // the block ramp gains a blank: darkest keeps the block, brightest blanks
    assert_eq!(ops[0].glyph, '\u{2588}');
    assert_eq!(ops[1].glyph, ' ');
}

#[test]
fn frame_buffer_length_is_checked() {
    assert!(Frame::new(2, 2, vec![0; 12]).is_some());
    assert!(Frame::new(2, 2, vec![0; 11]).is_none());
    assert!(Frame::new(2, 2, vec![0; 13]).is_none());
    assert!(Frame::new(0, 0, vec![]).is_some());
    assert!(Frame::new(0, 0, vec![1]).is_none());
}

#[test]
fn frame_pixels_are_row_major_rgb() {
    let frame = frame_from_pixels(2, 2, &[(1, 2, 3), (4, 5, 6), (7, 8, 9), (10, 11, 12)]);
    assert_eq!(frame.pixel(0, 0), (1, 2, 3));
    assert_eq!(frame.pixel(1, 0), (4, 5, 6));
    assert_eq!(frame.pixel(0, 1), (7, 8, 9));
    assert_eq!(frame.pixel(1, 1), (10, 11, 12));
}

#[test]
fn header_is_absent_in_fullscreen() {
    let mut args = base_args();
    args.fullscreen = true;
    let video = Video::from_args(args);
    assert!(video.write_header(80, 24).is_none());
    let video = Video::from_args(base_args());
    let line = video.write_header(80, 24).unwrap();
    assert!(line.starts_with(" Playing:  "));
}

#[test]
fn footer_dispatches_on_duration() {
    let mut video = Video::from_args(base_args());
    video.fps = 30;
    let fixed = video.write_footer(80, 150, 10, DurationType::Fixed(10), 10_000, 12_300_000);
    assert!(fixed.contains("00:00:10"));
    let live = video.write_footer(80, 150, 10, DurationType::Live, 10_000, 12_300_000);
    assert!(live.contains("Live"));
    assert!(live.contains("<=====>"));
}
