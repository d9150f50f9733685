use termplay::hud::{
    dec_string, footer_fixed, footer_live, format_time, fps_text, frame_time_text, header_line,
    two_digit_string,
};

#[test]
fn decimal_notation() {
    assert_eq!(dec_string(0), "0");
    assert_eq!(dec_string(7), "7");
    assert_eq!(dec_string(42), "42");
    assert_eq!(dec_string(18_446_744_073_709_551_615), "18446744073709551615");
}

#[test]
fn two_digit_zero_padding() {
    assert_eq!(two_digit_string(0), "00");
    assert_eq!(two_digit_string(9), "09");
    assert_eq!(two_digit_string(10), "10");
    assert_eq!(two_digit_string(123), "123");
}

#[test]
fn timecodes() {
    assert_eq!(format_time(0), "00:00:00");
    assert_eq!(format_time(59), "00:00:59");
    assert_eq!(format_time(61), "00:01:01");
    assert_eq!(format_time(3661), "01:01:01");
    assert_eq!(format_time(176_399), "48:59:59");
}

#[test]
fn paint_latency_field() {
    // 10 ms, two decimals, right-aligned to six characters
    assert_eq!(frame_time_text(10_000), " 10.00ms");
    assert_eq!(frame_time_text(1_234), "  1.23ms");
    assert_eq!(frame_time_text(999_990), "999.99ms");
    assert_eq!(frame_time_text(0), "  0.00ms");
}

#[test]
fn rate_field() {
    assert_eq!(fps_text(10, 30), " FPS: 10/30");
    assert_eq!(fps_text(0, 30), "  FPS: 0/30");
    assert_eq!(fps_text(12345, 60), "FPS: 12345/60");
}

#[test]
fn header_spreads_title_and_resolution() {
    let line = header_line("clip", 100, 40, 60, 24);
    assert_eq!(line.chars().count(), 60);
    assert!(line.starts_with(" Playing: clip "));
    assert!(line.ends_with("100x40/60x24"));
    let middle = &line[" Playing: clip ".len()..line.len() - "100x40/60x24".len()];
    assert!(middle.chars().all(|c| c == ' '));
}

#[test]
fn header_survives_a_narrow_terminal() {
    let line = header_line("a very long title indeed", 1920, 1080, 10, 5);
    assert!(line.starts_with(" Playing: a very long title indeed "));
    assert!(line.ends_with("1920x1080/10x5"));
}

#[test]
fn fixed_footer_with_room_for_every_field() {
    // 5 s of 10 s at 30 fps, terminal 80 wide, paint took 10 ms
    let line = footer_fixed(80, 150, 30, 10, 10, 10_000);
    // fields: " 00:00:05/00:00:10 [bar] FPS-field latency-field "
    // separators and fields take 45 columns, the bar keeps 35, half filled
    assert_eq!(
        line,
        " 00:00:05/00:00:10 [==================                 ]  FPS: 10/30  10.00ms "
    );
    assert_eq!(line.chars().count(), 78);
}

#[test]
fn fixed_footer_drops_rate_and_latency_when_narrow() {
    let line = footer_fixed(30, 150, 30, 10, 10, 10_000);
    // the two optional fields are gone, the bar shrinks, the line fits
    assert_eq!(line, " 00:00:05/00:00:10 [===   ]   ");
    assert_eq!(line.chars().count(), 30);
    assert!(!line.contains("FPS"));
    assert!(!line.contains("ms"));
}

#[test]
fn fixed_footer_bar_full_at_the_end() {
    let line = footer_fixed(40, 300, 30, 10, 10, 10_000);
    // at t = total the filled part reaches the closing bracket
    assert_eq!(line, " 00:00:10/00:00:10 [================]   ");
}

#[test]
fn fixed_footer_bar_clamps_past_the_end() {
    // seeking past the end cannot overflow the bar
    let wide = footer_fixed(80, 600, 30, 10, 10, 10_000);
    assert!(wide.contains("[==================================="));
    assert_eq!(wide.chars().count(), 78);
}

#[test]
fn live_footer_shows_live_and_a_sliding_cue() {
    // 12.3 s since start: the cue sits at 123 mod 33 = 24 of 33 columns
    let line = footer_live(80, 150, 30, 10, 10_000, 12_300_000);
    assert_eq!(
        line,
        " 00:00:05/Live [                        <=====>         ]  FPS: 10/30  10.00ms "
    );
}

#[test]
fn live_footer_drops_fields_when_narrow() {
    let line = footer_live(30, 150, 30, 10, 10_000, 12_300_000);
    assert!(!line.contains("FPS"));
    assert!(line.contains("<=====>"));
}
