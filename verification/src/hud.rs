//! HUD composition: timecodes, the header line with title and resolution,
//! and the footer line with timecode, progress bar, observed rate and paint
//! latency — all as plain strings for the application to print.

use vstd::prelude::*;
use vstd::arithmetic::div_mod::lemma_div_is_ordered;

verus! {

/// The decimal digit `d` as a character.
pub open spec fn digit_char(d: int) -> char {
    if d == 0 { '0' }
    else if d == 1 { '1' }
    else if d == 2 { '2' }
    else if d == 3 { '3' }
    else if d == 4 { '4' }
    else if d == 5 { '5' }
    else if d == 6 { '6' }
    else if d == 7 { '7' }
    else if d == 8 { '8' }
    else { '9' }
}

/// The decimal notation of a non-negative number, most significant digit
/// first.
pub open spec fn dec_spec(n: int) -> Seq<char>
    decreases n,
{
    if n < 10 {
        seq![digit_char(n)]
    } else {
        dec_spec(n / 10).push(digit_char(n % 10))
    }
}

/// Decimal notation padded with a leading zero to at least two digits, as
/// the fields of a timecode are written.
pub open spec fn two_digit_spec(n: int) -> Seq<char> {
    if n < 10 {
        "0"@ + seq![digit_char(n)]
    } else {
        dec_spec(n)
    }
}

/// A timecode `hh:mm:ss` of a position of `t` whole seconds; each field is
/// zero-padded to two digits and the hour field grows as needed.
pub open spec fn time_spec(t: int) -> Seq<char> {
    two_digit_spec(t / 3600) + ":"@ + two_digit_spec((t % 3600) / 60) + ":"@ + two_digit_spec(
        t % 60,
    )
}

/// `n` copies of the character `c` (none when `n` is negative).
pub open spec fn char_run(c: char, n: int) -> Seq<char> {
    Seq::new(if n >= 0 { n as nat } else { 0 }, |i: int| c)
}

/// `s` padded on the left with spaces to at least `w` characters.
pub open spec fn pad_left_spec(s: Seq<char>, w: int) -> Seq<char> {
    char_run(' ', w - s.len()) + s
}

/// A single decimal digit as a string slice.
fn digit_str(d: u64) -> (s: &'static str)
    requires
        d < 10,
    ensures
        s@ == seq![digit_char(d as int)],
{
    let s: &'static str = if d == 0 { "0" }
    else if d == 1 { "1" }
    else if d == 2 { "2" }
    else if d == 3 { "3" }
    else if d == 4 { "4" }
    else if d == 5 { "5" }
    else if d == 6 { "6" }
    else if d == 7 { "7" }
    else if d == 8 { "8" }
    else { "9" };
    proof {
        reveal_strlit("0");
        reveal_strlit("1");
        reveal_strlit("2");
        reveal_strlit("3");
        reveal_strlit("4");
        reveal_strlit("5");
        reveal_strlit("6");
        reveal_strlit("7");
        reveal_strlit("8");
        reveal_strlit("9");
        assert(s@ =~= seq![digit_char(d as int)]);
    }
    s
}

/// Writes `n` in decimal.
pub fn dec_string(n: u64) -> (s: String)
    ensures
        s@ == dec_spec(n as int),
    decreases n,
{
    if n < 10 {
        String::from_str(digit_str(n))
    } else {
        let mut s = dec_string(n / 10);
        s.append(digit_str(n % 10));
        proof {
            assert(s@ =~= dec_spec(n as int));
        }
        s
    }
}

/// Writes `n` in decimal, zero-padded to at least two digits.
pub fn two_digit_string(n: u64) -> (s: String)
    ensures
        s@ == two_digit_spec(n as int),
{
    if n < 10 {
        let mut s = String::from_str("0");
        s.append(digit_str(n));
        s
    } else {
        dec_string(n)
    }
}

/// Writes the timecode `hh:mm:ss` of a position of `t` whole seconds.
pub fn format_time(t: u64) -> (s: String)
    ensures
        s@ == time_spec(t as int),
{
    let mut s = two_digit_string(t / 3600);
    s.append(":");
    let minutes = two_digit_string((t % 3600) / 60);
    s.append(minutes.as_str());
    s.append(":");
    let seconds = two_digit_string(t % 60);
    s.append(seconds.as_str());
    s
}

/// Writes `n` copies of the one-character string `unit`.
fn repeat_str(unit: &str, Ghost(c): Ghost<char>, n: usize) -> (s: String)
    requires
        unit@ == seq![c],
    ensures
        s@ == char_run(c, n as int),
{
    let mut s = String::new();
    let mut i: usize = 0;
    proof {
        assert(s@ =~= char_run(c, 0));
    }
    while i < n
        invariant
            unit@ == seq![c],
            i <= n,
            s@ == char_run(c, i as int),
        decreases n - i,
    {
        s.append(unit);
        i += 1;
        proof {
            assert(s@ =~= char_run(c, i as int));
        }
    }
    s
}

/// Pads `s` on the left with spaces to at least `w` characters.
fn pad_left(s: String, w: usize) -> (r: String)
    ensures
        r@ == pad_left_spec(s@, w as int),
{
    proof {
        reveal_strlit(" ");
        assert(" "@ =~= seq![' ']);
    }
    let len = s.as_str().unicode_len();
    if len >= w {
        proof {
            assert(char_run(' ', w - s@.len()) =~= Seq::<char>::empty());
            assert(Seq::<char>::empty() + s@ =~= s@);
        }
        s
    } else {
        let mut r = repeat_str(" ", Ghost(' '), w - len);
        r.append(s.as_str());
        r
    }
}

/// The paint-latency field: the frame's paint time in milliseconds with two
/// decimal places, right-aligned to six characters, then `ms`.
pub open spec fn frame_time_text_spec(elapsed_micros: int) -> Seq<char> {
    pad_left_spec(
        dec_spec(elapsed_micros / 1000) + "."@ + two_digit_spec((elapsed_micros % 1000) / 10),
        6,
    ) + "ms"@
}

/// Writes the paint-latency field for a paint that took `elapsed_micros`.
pub fn frame_time_text(elapsed_micros: u64) -> (s: String)
    ensures
        s@ == frame_time_text_spec(elapsed_micros as int),
{
    let mut body = dec_string(elapsed_micros / 1000);
    body.append(".");
    let centis = two_digit_string((elapsed_micros % 1000) / 10);
    body.append(centis.as_str());
    let mut s = pad_left(body, 6);
    s.append("ms");
    s
}

/// The rate field: `FPS: observed/source`, right-aligned to eleven
/// characters.
pub open spec fn fps_text_spec(render_fps: int, source_fps: int) -> Seq<char> {
    pad_left_spec("FPS: "@ + dec_spec(render_fps) + "/"@ + dec_spec(source_fps), 11)
}

/// Writes the rate field from the observed and source frame rates.
pub fn fps_text(render_fps: u64, source_fps: u64) -> (s: String)
    ensures
        s@ == fps_text_spec(render_fps as int, source_fps as int),
{
    let mut body = String::from_str("FPS: ");
    let render = dec_string(render_fps);
    body.append(render.as_str());
    body.append("/");
    let source = dec_string(source_fps);
    body.append(source.as_str());
    pad_left(body, 11)
}

/// The header line: the playing title on the left, the video and terminal
/// resolutions on the right, padded apart to the width of the terminal.
pub open spec fn header_spec(
    title: Seq<char>,
    video_width: int,
    video_height: int,
    cols: int,
    rows: int,
) -> Seq<char> {
    let playing = " Playing: "@ + title + " "@;
    let resolution = dec_spec(video_width) + "x"@ + dec_spec(video_height) + "/"@ + dec_spec(cols)
        + "x"@ + dec_spec(rows);
    playing + char_run(' ', cols - playing.len() - resolution.len()) + resolution
}

/// Writes the header line for a terminal of `cols` by `rows` cells.
pub fn header_line(title: &str, video_width: u32, video_height: u32, cols: u16, rows: u16) -> (s:
    String)
    ensures
        s@ == header_spec(title@, video_width as int, video_height as int, cols as int, rows as int),
{
    let mut playing = String::from_str(" Playing: ");
    playing.append(title);
    playing.append(" ");

    let mut resolution = dec_string(video_width as u64);
    resolution.append("x");
    let vh = dec_string(video_height as u64);
    resolution.append(vh.as_str());
    resolution.append("/");
    let cw = dec_string(cols as u64);
    resolution.append(cw.as_str());
    resolution.append("x");
    let ch = dec_string(rows as u64);
    resolution.append(ch.as_str());

    let playing_len = playing.as_str().unicode_len();
    let resolution_len = resolution.as_str().unicode_len();
    let pad: usize = if (cols as usize) > playing_len && (cols as usize) - playing_len
        > resolution_len {
        (cols as usize) - playing_len - resolution_len
    } else {
        0
    };
    proof {
        reveal_strlit(" ");
        assert(" "@ =~= seq![' ']);
        assert(char_run(' ', pad as int) =~= char_run(
            ' ',
            cols as int - playing@.len() - resolution@.len(),
        ));
    }
    let mut s = playing;
    let spaces = repeat_str(" ", Ghost(' '), pad);
    s.append(spaces.as_str());
    s.append(resolution.as_str());
    s
}

/// How many of a progress bar's `space` columns are filled at position
/// `frames_seen / fps` seconds of `total_secs`: the fraction watched times
/// the width, rounded to the nearest column and clamped to the bar. A
/// session of no length reads as fully watched.
pub open spec fn progress_filled_spec(
    frames_seen: int,
    fps: int,
    total_secs: int,
    space: int,
) -> int {
    if fps * total_secs <= 0 {
        space
    } else {
        let rounded = (2 * frames_seen * space + fps * total_secs) / (2 * fps * total_secs);
        if rounded > space {
            space
        } else {
            rounded
        }
    }
}

/// The filled portion of the bar never leaves the bar.
pub proof fn lemma_progress_filled_bounds(
    frames_seen: int,
    fps: int,
    total_secs: int,
    space: int,
)
    requires
        frames_seen >= 0,
        fps >= 1,
        total_secs >= 0,
        space >= 0,
    ensures
        0 <= progress_filled_spec(frames_seen, fps, total_secs, space) <= space,
{
    if fps * total_secs > 0 {
        assert(2 * frames_seen * space >= 0) by (nonlinear_arith)
            requires frames_seen >= 0 && space >= 0;
        assert(2 * fps * total_secs > 0) by (nonlinear_arith)
            requires fps * total_secs > 0;
        lemma_div_is_ordered(
            0,
            2 * frames_seen * space + fps * total_secs,
            2 * fps * total_secs,
        );
    }
}

/// Columns filled in a bar of `space` columns.
fn progress_filled(frames_seen: u64, fps: u64, total_secs: u64, space: usize) -> (filled: usize)
    requires
        1 <= fps <= 1_000_000,
        frames_seen <= 0x20_0000_0000_0000,
        space <= 65535,
    ensures
        filled == progress_filled_spec(
            frames_seen as int,
            fps as int,
            total_secs as int,
            space as int,
        ),
        filled <= space,
{
    if total_secs == 0 {
        return space;
    }
    proof {
        assert(fps as int * total_secs as int >= 1) by (nonlinear_arith)
            requires fps >= 1 && total_secs >= 1;
        assert(2 * (frames_seen as int) * (space as int)
            <= 2 * 0x20_0000_0000_0000 * 65535) by (nonlinear_arith)
            requires frames_seen <= 0x20_0000_0000_0000 && space <= 65535;
        assert(0 <= 2 * (frames_seen as int) * (space as int)) by (nonlinear_arith)
            requires frames_seen >= 0 && space >= 0;
        assert(fps as int * total_secs as int <= 1_000_000 * 0xffff_ffff_ffff_ffff)
            by (nonlinear_arith)
            requires 0 <= fps <= 1_000_000 && total_secs <= 0xffff_ffff_ffff_ffff;
        assert(1 <= 2 * (fps as int) * (total_secs as int)
            <= 2_000_000 * 0xffff_ffff_ffff_ffff) by (nonlinear_arith)
            requires 1 <= fps <= 1_000_000 && 1 <= total_secs <= 0xffff_ffff_ffff_ffff;
    }
    let numerator: u128 = 2 * (frames_seen as u128) * (space as u128) + (fps as u128) * (
    total_secs as u128);
    let denominator: u128 = 2 * (fps as u128) * (total_secs as u128);
    let rounded: u128 = numerator / denominator;
    if rounded > space as u128 {
        space
    } else {
        rounded as usize
    }
}

/// A determinate progress bar: `space` columns between brackets, filled
/// from the left in proportion to how much of the session has played.
pub open spec fn progress_bar_spec(
    frames_seen: int,
    fps: int,
    total_secs: int,
    space: int,
) -> Seq<char> {
    let filled = progress_filled_spec(frames_seen, fps, total_secs, space);
    "["@ + char_run('=', filled) + char_run(' ', space - filled) + "]"@
}

/// Writes the progress bar of a session of known length.
fn progress_bar(frames_seen: u64, fps: u64, total_secs: u64, space: usize) -> (s: String)
    requires
        1 <= fps <= 1_000_000,
        frames_seen <= 0x20_0000_0000_0000,
        space <= 65535,
    ensures
        s@ == progress_bar_spec(frames_seen as int, fps as int, total_secs as int, space as int),
{
    proof {
        reveal_strlit("=");
        reveal_strlit(" ");
        assert("="@ =~= seq!['=']);
        assert(" "@ =~= seq![' ']);
    }
    let filled = progress_filled(frames_seen, fps, total_secs, space);
    let mut s = String::from_str("[");
    let watched = repeat_str("=", Ghost('='), filled);
    s.append(watched.as_str());
    let remaining = repeat_str(" ", Ghost(' '), space - filled);
    s.append(remaining.as_str());
    s.append("]");
    s
}

/// The live-stream cue: a marker sliding through `space` columns, its
/// offset cycling with a tenth-of-a-second clock since the session began.
pub open spec fn live_bar_spec(since_start_micros: int, space: int) -> Seq<char> {
    let offset = if space > 0 {
        (since_start_micros / 100_000) % space
    } else {
        0
    };
    "["@ + char_run(' ', offset) + "<=====>"@ + char_run(' ', space - offset) + "]"@
}

/// Writes the sliding live-stream cue.
fn live_bar(since_start_micros: u64, space: usize) -> (s: String)
    requires
        space <= 65535,
    ensures
        s@ == live_bar_spec(since_start_micros as int, space as int),
{
    proof {
        reveal_strlit(" ");
        assert(" "@ =~= seq![' ']);
    }
    let offset: usize = if space > 0 {
        ((since_start_micros / 100_000) % (space as u64)) as usize
    } else {
        0
    };
    let mut s = String::from_str("[");
    let before = repeat_str(" ", Ghost(' '), offset);
    s.append(before.as_str());
    s.append("<=====>");
    let after = repeat_str(" ", Ghost(' '), space - offset);
    s.append(after.as_str());
    s.append("]");
    s
}

/// The footer's layout: current time over total, the bar, then the rate
/// and latency fields, separated by single spaces.
pub open spec fn footer_row_spec(
    cur: Seq<char>,
    dur: Seq<char>,
    bar: Seq<char>,
    fps_field: Seq<char>,
    time_field: Seq<char>,
) -> Seq<char> {
    " "@ + cur + "/"@ + dur + " "@ + bar + " "@ + fps_field + " "@ + time_field + " "@
}

/// Writes one footer row from its five fields.
fn footer_row(
    cur: &String,
    dur: &String,
    bar: &String,
    fps_field: &String,
    time_field: &String,
) -> (s: String)
    ensures
        s@ == footer_row_spec(cur@, dur@, bar@, fps_field@, time_field@),
{
    let mut s = String::from_str(" ");
    s.append(cur.as_str());
    s.append("/");
    s.append(dur.as_str());
    s.append(" ");
    s.append(bar.as_str());
    s.append(" ");
    s.append(fps_field.as_str());
    s.append(" ");
    s.append(time_field.as_str());
    s.append(" ");
    s
}

/// The footer of a session of known length. The bar takes the columns left
/// over by the other fields and ten columns of separators; when fewer than
/// one would remain, the rate and latency fields are dropped and the bar
/// takes what is left beyond eight columns of separators.
pub open spec fn footer_fixed_spec(
    width: int,
    frames_seen: int,
    fps: int,
    total_secs: int,
    render_fps: int,
    elapsed_micros: int,
) -> Seq<char> {
    let cur = time_spec(frames_seen / fps);
    let dur = time_spec(total_secs);
    let fps_field = fps_text_spec(render_fps, fps);
    let time_field = frame_time_text_spec(elapsed_micros);
    let wide_space = width - (cur.len() + dur.len() + fps_field.len() + time_field.len() + 10);
    if wide_space >= 1 {
        footer_row_spec(
            cur,
            dur,
            progress_bar_spec(frames_seen, fps, total_secs, wide_space),
            fps_field,
            time_field,
        )
    } else {
        let space = if width - (cur.len() + dur.len() + 8) >= 0 {
            width - (cur.len() + dur.len() + 8)
        } else {
            0
        };
        footer_row_spec(
            cur,
            dur,
            progress_bar_spec(frames_seen, fps, total_secs, space),
            Seq::<char>::empty(),
            Seq::<char>::empty(),
        )
    }
}

/// Writes the footer of a session of `total_secs` seconds, for a terminal
/// `width` columns wide.
pub fn footer_fixed(
    width: u16,
    frames_seen: u64,
    fps: u64,
    total_secs: u64,
    render_fps: u64,
    elapsed_micros: u64,
) -> (s: String)
    requires
        1 <= fps <= 1_000_000,
        frames_seen <= 0x20_0000_0000_0000,
    ensures
        s@ == footer_fixed_spec(
            width as int,
            frames_seen as int,
            fps as int,
            total_secs as int,
            render_fps as int,
            elapsed_micros as int,
        ),
{
    let cur = format_time(frames_seen / fps);
    let dur = format_time(total_secs);
    let fps_field = fps_text(render_fps, fps);
    let time_field = frame_time_text(elapsed_micros);

    let taken: u128 = cur.as_str().unicode_len() as u128 + dur.as_str().unicode_len() as u128
        + fps_field.as_str().unicode_len() as u128 + time_field.as_str().unicode_len() as u128
        + 10;
    if (width as u128) >= taken + 1 {
        let space: usize = (width as u128 - taken) as usize;
        let bar = progress_bar(frames_seen, fps, total_secs, space);
        footer_row(&cur, &dur, &bar, &fps_field, &time_field)
    } else {
        let short: u128 = cur.as_str().unicode_len() as u128 + dur.as_str().unicode_len() as u128
            + 8;
        let space: usize = if (width as u128) >= short {
            (width as u128 - short) as usize
        } else {
            0
        };
        let bar = progress_bar(frames_seen, fps, total_secs, space);
        let empty_fps = String::new();
        let empty_time = String::new();
        footer_row(&cur, &dur, &bar, &empty_fps, &empty_time)
    }
}

/// The footer of a live session: the total reads `Live` and the bar is the
/// sliding cue, which with its separators takes sixteen columns beyond the
/// other fields; when fewer than one column would remain for the slide, the
/// rate and latency fields are dropped and fourteen columns of frame
/// remain.
pub open spec fn footer_live_spec(
    width: int,
    frames_seen: int,
    fps: int,
    render_fps: int,
    elapsed_micros: int,
    since_start_micros: int,
) -> Seq<char> {
    let cur = time_spec(frames_seen / fps);
    let dur = "Live"@;
    let fps_field = fps_text_spec(render_fps, fps);
    let time_field = frame_time_text_spec(elapsed_micros);
    let wide_space = width - (cur.len() + dur.len() + fps_field.len() + time_field.len() + 16);
    if wide_space >= 1 {
        footer_row_spec(
            cur,
            dur,
            live_bar_spec(since_start_micros, wide_space),
            fps_field,
            time_field,
        )
    } else {
        let space = if width - (cur.len() + dur.len() + 14) >= 0 {
            width - (cur.len() + dur.len() + 14)
        } else {
            0
        };
        footer_row_spec(
            cur,
            dur,
            live_bar_spec(since_start_micros, space),
            Seq::<char>::empty(),
            Seq::<char>::empty(),
        )
    }
}

/// Writes the footer of a live session, for a terminal `width` columns
/// wide.
pub fn footer_live(
    width: u16,
    frames_seen: u64,
    fps: u64,
    render_fps: u64,
    elapsed_micros: u64,
    since_start_micros: u64,
) -> (s: String)
    requires
        1 <= fps <= 1_000_000,
        frames_seen <= 0x20_0000_0000_0000,
    ensures
        s@ == footer_live_spec(
            width as int,
            frames_seen as int,
            fps as int,
            render_fps as int,
            elapsed_micros as int,
            since_start_micros as int,
        ),
{
    let cur = format_time(frames_seen / fps);
    let dur = String::from_str("Live");
    let fps_field = fps_text(render_fps, fps);
    let time_field = frame_time_text(elapsed_micros);

    let taken: u128 = cur.as_str().unicode_len() as u128 + dur.as_str().unicode_len() as u128
        + fps_field.as_str().unicode_len() as u128 + time_field.as_str().unicode_len() as u128
        + 16;
    if (width as u128) >= taken + 1 {
        let space: usize = (width as u128 - taken) as usize;
        let bar = live_bar(since_start_micros, space);
        footer_row(&cur, &dur, &bar, &fps_field, &time_field)
    } else {
        let short: u128 = cur.as_str().unicode_len() as u128 + dur.as_str().unicode_len() as u128
            + 14;
        let space: usize = if (width as u128) >= short {
            (width as u128 - short) as usize
        } else {
            0
        };
        let bar = live_bar(since_start_micros, space);
        let empty_fps = String::new();
        let empty_time = String::new();
        footer_row(&cur, &dur, &bar, &empty_fps, &empty_time)
    }
}

/// Under a terminal too narrow for the rate and latency fields, the footer
/// of a session of known length drops those two fields and, as long as the
/// two timecodes and the fixed separators themselves fit, fills the width
/// exactly: the bar shrinks instead of overflowing.
pub proof fn lemma_footer_field_dropping(
    width: int,
    frames_seen: int,
    fps: int,
    total_secs: int,
    render_fps: int,
    elapsed_micros: int,
)
    requires
        fps >= 1,
        frames_seen >= 0,
        total_secs >= 0,
        width < time_spec(frames_seen / fps).len() + time_spec(total_secs).len() + fps_text_spec(
            render_fps,
            fps,
        ).len() + frame_time_text_spec(elapsed_micros).len() + 11,
        width >= time_spec(frames_seen / fps).len() + time_spec(total_secs).len() + 8,
    ensures
        footer_fixed_spec(width, frames_seen, fps, total_secs, render_fps, elapsed_micros).len()
            == width,
{
    let cur = time_spec(frames_seen / fps);
    let dur = time_spec(total_secs);
    let space = width - (cur.len() + dur.len() + 8);
    lemma_progress_filled_bounds(frames_seen, fps, total_secs, space);
    reveal_strlit("[");
    reveal_strlit("]");
    reveal_strlit(" ");
    reveal_strlit("/");
    let filled = progress_filled_spec(frames_seen, fps, total_secs, space);
    assert(char_run('=', filled).len() == filled);
    assert(char_run(' ', space - filled).len() == space - filled);
    assert(progress_bar_spec(frames_seen, fps, total_secs, space).len() == space + 2);
}

} // verus!
