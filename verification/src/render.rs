//! The differential renderer: which sampled cells of a frame must be
//! repainted, and the paint operations — cursor moves, colour changes,
//! glyphs — that repaint them with no redundant colour escapes.

use vstd::prelude::*;
use vstd::seq_lib::*;
use vstd::arithmetic::div_mod::{
    lemma_div_is_ordered, lemma_fundamental_div_mod, lemma_fundamental_div_mod_converse,
};
use vstd::arithmetic::mul::lemma_mul_inequality;

use crate::args::CharacterMode;
use crate::frame::Frame;
use crate::glyph::{
    effective_ramp_spec, foreground_spec, glyph_ramp, foreground_for, ramp_index, ramp_index_spec,
};
use crate::pixel::{differs_beyond, exceeds_threshold, get_grey, luma};

verus! {

/// A sampled cell that must be repainted: its pixel coordinates in the
/// frame and the colour found there.
#[derive(Clone, Copy, Debug, PartialEq, Eq)]
pub struct SelCell {
    pub x: usize,
    pub y: usize,
    pub rgb: (u8, u8, u8),
}

/// One terminal paint operation: move to a cell, optionally change the
/// background and foreground colours, and print a glyph. A colour left
/// `None` keeps whatever the previous operation set.
#[derive(Clone, Copy, Debug, PartialEq, Eq)]
pub struct CellPaint {
    pub col: u16,
    pub row: u16,
    pub glyph: char,
    pub fg: Option<(u8, u8, u8)>,
    pub bg: Option<(u8, u8, u8)>,
}

/// How many pixel rows of a frame are sampled with the given stride: rows
/// `0, stride, 2 * stride, ...` while below `height`.
pub open spec fn sampled_rows(height: int, stride: int) -> int {
    (height + stride - 1) / stride
}

/// The sampled grid positions of a frame in paint order: row-major over
/// every sampled pixel row, one entry per pixel column.
pub open spec fn grid(width: int, height: int, stride: int) -> Seq<(int, int)> {
    Seq::new(
        (sampled_rows(height, stride) * width) as nat,
        |k: int| (k % width, (k / width) * stride),
    )
}

/// Whether the cell at `(x, y)` must be repainted: always when there is no
/// previous frame (session start, or a resize changed the frame size), and
/// otherwise exactly when its colour moved at least `threshold` away from
/// the previous frame's colour at the same position.
pub open spec fn needs_paint(cur: Frame, last: Option<Frame>, threshold: u16, x: int, y: int) -> bool {
    match last {
        Option::None => true,
        Option::Some(l) => !(l.width == cur.width && l.height == cur.height)
            || differs_beyond(cur.pixel_spec(x, y), l.pixel_spec(x, y), threshold),
    }
}

/// The repaint test as a predicate over grid positions.
pub open spec fn paint_pred(cur: Frame, last: Option<Frame>, threshold: u16) -> spec_fn(
    (int, int),
) -> bool {
    |p: (int, int)| needs_paint(cur, last, threshold, p.0, p.1)
}

/// The cells repainted for a frame, in paint order: the sampled grid
/// filtered down to the positions whose colour changed enough.
pub open spec fn selection(cur: Frame, last: Option<Frame>, threshold: u16, stride: int) -> Seq<
    (int, int),
> {
    grid(cur.width as int, cur.height as int, stride).filter(paint_pred(cur, last, threshold))
}

/// The coordinates of a run of selected cells.
pub open spec fn cell_coords(cells: Seq<SelCell>) -> Seq<(int, int)> {
    cells.map_values(|c: SelCell| (c.x as int, c.y as int))
}

/// The grid position of a sampled coordinate pair: a sampled cell `(x, y)`
/// sits at grid index `(y / stride) * width + x`.
proof fn lemma_grid_index(width: int, height: int, stride: int, x: int, y: int)
    requires
        stride >= 1,
        0 <= x < width,
        0 <= y < height,
        y % stride == 0,
    ensures
        0 <= (y / stride) * width + x < grid(width, height, stride).len(),
        grid(width, height, stride)[(y / stride) * width + x] == (x, y),
{
    let q = y / stride;
    let k = q * width + x;
    let rows = sampled_rows(height, stride);
    lemma_fundamental_div_mod(y, stride);
    assert(y == stride * q);
    assert(stride * q == q * stride) by (nonlinear_arith);
    assert(q * width >= 0) by (nonlinear_arith)
        requires q >= 0 && width >= 0;
    lemma_fundamental_div_mod_converse(k, width, q, x);
    // q < rows: rows == (height - 1) / stride + 1 and q <= (height - 1) / stride
    lemma_div_is_ordered(y, height - 1, stride);
    lemma_fundamental_div_mod(height - 1, stride);
    let hq = (height - 1) / stride;
    assert(stride * hq + stride == (hq + 1) * stride) by (nonlinear_arith);
    lemma_fundamental_div_mod_converse(
        height + stride - 1,
        stride,
        hq + 1,
        (height - 1) % stride,
    );
    assert(q + 1 <= rows);
    lemma_mul_inequality(q + 1, rows, width);
    assert((q + 1) * width == q * width + width) by (nonlinear_arith);
    assert(grid(width, height, stride)[k] == (k % width, (k / width) * stride));
}

/// Selects the cells of `frame` that must be repainted, in row-major order
/// over the sampled grid, recording the colour of each.
pub fn select_cells(frame: &Frame, last: &Option<Frame>, threshold: u16, stride: u32) -> (cells:
    Vec<SelCell>)
    requires
        frame.wf(),
        stride >= 1,
        frame.height + stride <= usize::MAX,
        last matches Some(l) ==> l.wf(),
    ensures
        cell_coords(cells@) == selection(*frame, *last, threshold, stride as int),
        forall|i: int|
            0 <= i < cells@.len() ==> (#[trigger] cells@[i]).x < frame.width
                && cells@[i].y < frame.height && cells@[i].y as int % (stride as int) == 0
                && cells@[i].rgb == frame.pixel_spec(cells@[i].x as int, cells@[i].y as int),
{
    let ghost gw = frame.width as int;
    let ghost gh = frame.height as int;
    let ghost gs = stride as int;
    let ghost g = grid(gw, gh, gs);
    let ghost pred = paint_pred(*frame, *last, threshold);

    let mut cells: Vec<SelCell> = Vec::new();
    let mut y: usize = 0;
    let step: usize = stride as usize;

    proof {
        assert(g.take(0).filter(pred) =~= Seq::<(int, int)>::empty());
        assert(cell_coords(cells@) =~= Seq::<(int, int)>::empty());
    }

    while y < frame.height
        invariant
            frame.wf(),
            stride >= 1,
            step == stride,
            frame.height + stride <= usize::MAX,
            last matches Some(l) ==> l.wf(),
            gw == frame.width,
            gh == frame.height,
            gs == stride,
            g == grid(gw, gh, gs),
            pred == paint_pred(*frame, *last, threshold),
            y as int % gs == 0,
            y <= gh + gs - 1,
            (y as int / gs) * gw <= g.len(),
            cell_coords(cells@) == g.take((y as int / gs) * gw).filter(pred),
            forall|i: int|
                0 <= i < cells@.len() ==> (#[trigger] cells@[i]).x < frame.width
                    && cells@[i].y < frame.height && cells@[i].y as int % (stride as int) == 0
                    && cells@[i].rgb == frame.pixel_spec(cells@[i].x as int, cells@[i].y as int),
        decreases gh + gs - y,
    {
        let ghost q = y as int / gs;
        let mut x: usize = 0;
        proof {
            lemma_fundamental_div_mod(y as int, gs);
            assert(gs * q == q * gs) by (nonlinear_arith);
        }
        while x < frame.width
            invariant
                frame.wf(),
                stride >= 1,
                last matches Some(l) ==> l.wf(),
                gw == frame.width,
                gh == frame.height,
                gs == stride,
                g == grid(gw, gh, gs),
                pred == paint_pred(*frame, *last, threshold),
                y < frame.height,
                y as int % gs == 0,
                q == y as int / gs,
                x <= frame.width,
                q * gw + x <= g.len(),
                cell_coords(cells@) == g.take(q * gw + x).filter(pred),
                forall|i: int|
                    0 <= i < cells@.len() ==> (#[trigger] cells@[i]).x < frame.width
                        && cells@[i].y < frame.height && cells@[i].y as int % (stride as int) == 0
                        && cells@[i].rgb == frame.pixel_spec(cells@[i].x as int, cells@[i].y as int),
            decreases gw - x,
        {
            let ghost k = q * gw + x as int;
            proof {
                lemma_grid_index(gw, gh, gs, x as int, y as int);
            }
            let rgb = frame.pixel(x, y);
            let repaint: bool = match last {
                Option::Some(l) => {
                    if l.width == frame.width && l.height == frame.height {
                        exceeds_threshold(rgb, l.pixel(x, y), threshold)
                    } else {
                        true
                    }
                }
                Option::None => true,
            };
            assert(repaint == pred(g[k]));
            proof {
                reveal(Seq::filter);
                assert(g.take(k + 1).drop_last() =~= g.take(k));
                assert(g.take(k + 1).last() == g[k]);
            }
            if repaint {
                let cell = SelCell { x, y, rgb };
                cells.push(cell);
                proof {
                    assert(cell_coords(cells@) =~= g.take(k).filter(pred).push((x as int, y as int)));
                    assert(g.take(k + 1).filter(pred) == g.take(k).filter(pred).push(g[k]));
                }
            } else {
                proof {
                    assert(g.take(k + 1).filter(pred) == g.take(k).filter(pred));
                }
            }
            x += 1;
        }
        proof {
            // moving down one sampled row advances the processed grid prefix
            // by exactly one row of cells
            lemma_fundamental_div_mod(y as int, gs);
            assert(gs * q == q * gs) by (nonlinear_arith);
            assert(y as int + gs == (q + 1) * gs) by (nonlinear_arith)
                requires y as int == q * gs;
            lemma_fundamental_div_mod_converse(y as int + gs, gs, q + 1, 0);
            assert((q + 1) * gw == q * gw + gw) by (nonlinear_arith);
        }
        y += step;
    }
    proof {
        // the loop stops on the first multiple of the stride at or past the
        // frame height, which is exactly where the sampled grid ends
        let q = y as int / gs;
        lemma_fundamental_div_mod(y as int, gs);
        assert(gs * q == q * gs) by (nonlinear_arith);
        lemma_fundamental_div_mod_converse(gh + gs - 1, gs, q, gh + gs - 1 - q * gs);
        assert(q == sampled_rows(gh, gs));
        assert(g.take(g.len() as int) =~= g);
    }
    cells
}

/// How one painted cell relates to the repainted cell it shows and to the
/// cell painted just before it: the cursor lands on `(col, row)`, the glyph
/// is the ramp entry of the cell's brightness, and a colour escape is
/// emitted only when the colour differs from the one already in effect.
pub open spec fn op_matches(
    op: CellPaint,
    rgb: (u8, u8, u8),
    prev_rgb: Option<(u8, u8, u8)>,
    mode: CharacterMode,
    no_color: bool,
    col: int,
    row: int,
) -> bool {
    let ramp = effective_ramp_spec(mode, no_color);
    &&& op.col == col
    &&& op.row == row
    &&& op.glyph == ramp[ramp_index_spec(luma(rgb.0, rgb.1, rgb.2), ramp.len() as int)]
    &&& op.bg == if !no_color && prev_rgb != Some(rgb) {
        Some(rgb)
    } else {
        None::<(u8, u8, u8)>
    }
    &&& op.fg == if no_color {
        None::<(u8, u8, u8)>
    } else {
        match prev_rgb {
            Option::None => Some(foreground_spec(mode, rgb)),
            Option::Some(p) => if foreground_spec(mode, p) != foreground_spec(mode, rgb) {
                Some(foreground_spec(mode, rgb))
            } else {
                None::<(u8, u8, u8)>
            },
        }
    }
}

/// Compares two colours.
fn rgb_eq(a: (u8, u8, u8), b: (u8, u8, u8)) -> (r: bool)
    ensures
        r == (a == b),
{
    let eq = a.0 == b.0 && a.1 == b.1 && a.2 == b.2;
    proof {
        if a.0 == b.0 && a.1 == b.1 && a.2 == b.2 {
            assert(a == b);
        }
    }
    eq
}

/// Turns the selected cells into paint operations: one cursor move and one
/// glyph per cell, with background and foreground escapes only where the
/// colour actually changes from the previously painted cell.
pub fn paint_cells(
    cells: &Vec<SelCell>,
    mode: &CharacterMode,
    no_color: bool,
    x_off: u32,
    y_off: u32,
    stride: u32,
) -> (ops: Vec<CellPaint>)
    requires
        stride >= 1,
        forall|i: int|
            0 <= i < cells@.len() ==> (#[trigger] cells@[i]).x + x_off <= u16::MAX
                && cells@[i].y as int / (stride as int) + y_off <= u16::MAX,
    ensures
        ops@.len() == cells@.len(),
        forall|i: int|
            0 <= i < cells@.len() ==> op_matches(
                #[trigger] ops@[i],
                cells@[i].rgb,
                if i == 0 {
                    None
                } else {
                    Some(cells@[i - 1].rgb)
                },
                *mode,
                no_color,
                cells@[i].x + x_off,
                cells@[i].y as int / (stride as int) + y_off,
            ),
{
    let ramp = glyph_ramp(mode, no_color);
    let mut ops: Vec<CellPaint> = Vec::new();
    let mut prev: Option<(u8, u8, u8)> = None;
    let mut i: usize = 0;
    let step: usize = stride as usize;
    while i < cells.len()
        invariant
            step == stride,
            stride >= 1,
            ramp@ == effective_ramp_spec(*mode, no_color),
            1 <= ramp@.len() <= 100,
            i <= cells@.len(),
            ops@.len() == i,
            prev == if i == 0 {
                None::<(u8, u8, u8)>
            } else {
                Some(cells@[i as int - 1].rgb)
            },
            forall|j: int|
                0 <= j < cells@.len() ==> (#[trigger] cells@[j]).x + x_off <= u16::MAX
                    && cells@[j].y as int / (stride as int) + y_off <= u16::MAX,
            forall|j: int|
                0 <= j < i ==> op_matches(
                    #[trigger] ops@[j],
                    cells@[j].rgb,
                    if j == 0 {
                        None
                    } else {
                        Some(cells@[j - 1].rgb)
                    },
                    *mode,
                    no_color,
                    cells@[j].x + x_off,
                    cells@[j].y as int / (stride as int) + y_off,
                ),
        decreases cells@.len() - i,
    {
        let cell = cells[i];
        let col: u16 = (cell.x as u32 + x_off) as u16;
        let row: u16 = ((cell.y / step) as u32 + y_off) as u16;
        let grey = get_grey(cell.rgb.0, cell.rgb.1, cell.rgb.2);
        let index = ramp_index(grey, ramp.len());
        let glyph = ramp[index];
        let bg: Option<(u8, u8, u8)> = if no_color {
            None
        } else {
            match prev {
                Option::Some(p) => if rgb_eq(p, cell.rgb) {
                    None
                } else {
                    Some(cell.rgb)
                },
                Option::None => Some(cell.rgb),
            }
        };
        let fg: Option<(u8, u8, u8)> = if no_color {
            None
        } else {
            let want = foreground_for(mode, cell.rgb);
            match prev {
                Option::Some(p) => {
                    let had = foreground_for(mode, p);
                    if rgb_eq(had, want) {
                        None
                    } else {
                        Some(want)
                    }
                }
                Option::None => Some(want),
            }
        };
        ops.push(CellPaint { col, row, glyph, fg, bg });
        prev = Some(cell.rgb);
        i += 1;
    }
    ops
}

/// With no previous frame — at session start, or after a resize changed
/// the frame size — every sampled cell is repainted.
pub proof fn lemma_full_repaint_without_last(
    cur: Frame,
    threshold: u16,
    stride: int,
    x: int,
    y: int,
)
    requires
        stride >= 1,
        0 <= x < cur.width,
        0 <= y < cur.height,
        y % stride == 0,
    ensures
        selection(cur, None, threshold, stride).contains((x, y)),
{
    let g = grid(cur.width as int, cur.height as int, stride);
    let pred = paint_pred(cur, None, threshold);
    let k = (y / stride) * (cur.width as int) + x;
    lemma_grid_index(cur.width as int, cur.height as int, stride, x, y);
    g.lemma_filter_contains(pred, k);
}

/// Between two frames of the same size, a sampled cell is repainted if and
/// only if its colour distance from the previous frame's cell reaches the
/// threshold.
pub proof fn lemma_repaint_iff_threshold(
    cur: Frame,
    last: Frame,
    threshold: u16,
    stride: int,
    x: int,
    y: int,
)
    requires
        stride >= 1,
        last.width == cur.width,
        last.height == cur.height,
        0 <= x < cur.width,
        0 <= y < cur.height,
        y % stride == 0,
    ensures
        selection(cur, Some(last), threshold, stride).contains((x, y)) <==> differs_beyond(
            cur.pixel_spec(x, y),
            last.pixel_spec(x, y),
            threshold,
        ),
{
    let g = grid(cur.width as int, cur.height as int, stride);
    let pred = paint_pred(cur, Some(last), threshold);
    let sel = selection(cur, Some(last), threshold, stride);
    let k = (y / stride) * (cur.width as int) + x;
    lemma_grid_index(cur.width as int, cur.height as int, stride, x, y);
    if differs_beyond(cur.pixel_spec(x, y), last.pixel_spec(x, y), threshold) {
        g.lemma_filter_contains(pred, k);
    }
    if sel.contains((x, y)) {
        let i = choose|i: int| 0 <= i < sel.len() && sel[i] == (x, y);
        g.lemma_filter_pred(pred, i);
    }
}

} // verus!
