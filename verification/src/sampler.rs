//! Cell sampling: the vertical pixel stride per terminal row and the
//! horizontal centering offset of a frame inside the terminal.

use vstd::prelude::*;

verus! {

/// Rows at the bottom of the screen that the stride computation sets aside.
pub const STRIDE_RESERVED_ROWS: u16 = 2;

/// The vertical sampling stride for a terminal of `width` by `height`
/// character cells: every `stride`-th pixel row feeds one terminal row, which
/// compensates for character cells being taller than they are wide. The
/// stride is never below 2, and a terminal with no rows to spare beyond the
/// reserved ones falls back to that minimum.
pub open spec fn step_size_spec(width: u16, height: u16) -> int {
    if height <= STRIDE_RESERVED_ROWS {
        2
    } else {
        let quotient = width as int / (height - STRIDE_RESERVED_ROWS) as int;
        if quotient - 2 >= 2 {
            quotient - 2
        } else {
            2
        }
    }
}

/// Vertical sampling stride for the given terminal size.
pub fn step_size(width: u16, height: u16) -> (stride: u32)
    ensures
        stride == step_size_spec(width, height),
        2 <= stride <= u16::MAX,
{
    if height <= STRIDE_RESERVED_ROWS {
        2
    } else {
        let quotient: u16 = width / (height - STRIDE_RESERVED_ROWS);
        if quotient >= 4 {
            quotient as u32 - 2
        } else {
            2
        }
    }
}

/// Horizontal centering offset: when the frame is narrower than the
/// terminal, half the spare columns go to its left; otherwise it starts at
/// column zero.
pub open spec fn x_offset_spec(frame_width: int, terminal_width: u16) -> int {
    if frame_width < terminal_width as int {
        (terminal_width as int - frame_width) / 2
    } else {
        0
    }
}

/// Horizontal centering offset of a frame inside the terminal.
pub fn x_offset(frame_width: usize, terminal_width: u16) -> (off: u32)
    ensures
        off == x_offset_spec(frame_width as int, terminal_width),
        off <= u16::MAX,
{
    if frame_width < terminal_width as usize {
        (terminal_width as u32 - frame_width as u32) / 2
    } else {
        0
    }
}

/// The pixel size asked of the decoder for a terminal of `width` by `height`
/// cells: one pixel column per cell column, and `stride` pixel rows per cell
/// row; outside fullscreen, eight pixel rows are given up to the header and
/// footer area.
pub open spec fn render_target_spec(width: u16, height: u16, fullscreen: bool) -> (int, int) {
    let full_height = height as int * step_size_spec(width, height);
    let target_height = if fullscreen {
        full_height
    } else if full_height >= 8 {
        full_height - 8
    } else {
        0
    };
    (width as int, target_height)
}

/// Pixel width and height to negotiate with the decoder.
pub fn render_target_size(width: u16, height: u16, fullscreen: bool) -> (size: (u32, u32))
    ensures
        (size.0 as int, size.1 as int) == render_target_spec(width, height, fullscreen),
{
    let stride: u32 = step_size(width, height);
    proof {
        assert(height as int * stride as int <= 65535 * 65535) by (nonlinear_arith)
            requires height <= 65535 && stride <= 65535;
    }
    let full_height: u32 = height as u32 * stride;
    let target_height: u32 = if fullscreen {
        full_height
    } else {
        if full_height >= 8 {
            full_height - 8
        } else {
            0
        }
    };
    (width as u32, target_height)
}

} // verus!
