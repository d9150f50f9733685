//! The player state for one session and the paint entry points: building
//! the header, painting one frame differentially, and building the footer.

use vstd::prelude::*;

use crate::args::{Args, CharacterMode, HardwareAcceleration, ScaleMode};
use crate::frame::Frame;
use crate::hud::{
    footer_fixed, footer_fixed_spec, footer_live, footer_live_spec, header_line, header_spec,
};
use crate::render::{
    op_matches, paint_cells, select_cells, selection, CellPaint,
};
use crate::sampler::{step_size, step_size_spec, x_offset, x_offset_spec};
use crate::transport::DurationType;

verus! {

/// One playback session: what to render, how to render it, and what was
/// rendered last.
pub struct Video {
    /// The URL or file path being played.
    pub url: String,
    /// Title shown in the header; resolved when the source is opened.
    pub title: String,
    /// Source frames per second; resolved when the source is opened.
    pub fps: u64,
    /// The last painted frame, kept only for pixel-diffing. Absent before
    /// the first paint and invalidated by a frame-size change.
    pub last_frame: Option<Frame>,
    /// How sampled pixels become glyphs.
    pub character_mode: CharacterMode,
    /// Colour distance below which a cell is not repainted.
    pub pixel_clear_distance: u16,
    /// How the decoder scales the picture.
    pub scale_mode: ScaleMode,
    /// Paint as fast as frames arrive instead of pacing.
    pub remove_fps_cap: bool,
    /// No header or footer lines.
    pub fullscreen: bool,
    /// Hardware acceleration requested of the decoder.
    pub hw_accel: HardwareAcceleration,
    /// The pixel size the decoder was asked for.
    pub render_size: (u32, u32),
    /// Paint glyphs without colour.
    pub no_color: bool,
    /// Whether the source is a live stream.
    pub live: bool,
}

impl Video {
    /// A stored previous frame is always a well-formed buffer.
    pub open spec fn wf(self) -> bool {
        match self.last_frame {
            Option::Some(f) => f.wf(),
            Option::None => true,
        }
    }

    /// Builds the player from the parsed command line: unset options fall
    /// back to a solid-block, fit-scaled, software-decoded session with a
    /// repaint threshold of 2; title, rate and size stay empty until the
    /// source is opened.
    pub fn from_args(args: Args) -> (video: Video)
        ensures
            video.wf(),
            video.url@ == args.url@,
            video.title@ == Seq::<char>::empty(),
            video.fps == 0,
            video.last_frame is None,
            video.character_mode == args.mode.unwrap_or(CharacterMode::Block),
            video.pixel_clear_distance == args.pixel_clear_distance.unwrap_or(2u16),
            video.scale_mode == args.scale.unwrap_or(ScaleMode::Fit),
            video.remove_fps_cap == args.remove_fps_cap,
            video.fullscreen == args.fullscreen,
            video.hw_accel == args.hw_accel.unwrap_or(HardwareAcceleration::Disabled),
            video.render_size == (0u32, 0u32),
            video.no_color == args.no_color,
            !video.live,
    {
        Video {
            url: args.url,
            title: String::new(),
            fps: 0,
            last_frame: None,
            character_mode: match args.mode {
                Option::Some(m) => m,
                Option::None => CharacterMode::Block,
            },
            pixel_clear_distance: match args.pixel_clear_distance {
                Option::Some(d) => d,
                Option::None => 2,
            },
            scale_mode: match args.scale {
                Option::Some(s) => s,
                Option::None => ScaleMode::Fit,
            },
            remove_fps_cap: args.remove_fps_cap,
            fullscreen: args.fullscreen,
            hw_accel: match args.hw_accel {
                Option::Some(h) => h,
                Option::None => HardwareAcceleration::Disabled,
            },
            render_size: (0, 0),
            no_color: args.no_color,
            live: false,
        }
    }

    /// The header line for the current terminal size, or nothing in
    /// fullscreen mode.
    pub fn write_header(&self, cols: u16, rows: u16) -> (line: Option<String>)
        ensures
            self.fullscreen ==> line is None,
            !self.fullscreen ==> (line matches Some(s) && s@ == header_spec(
                self.title@,
                self.render_size.0 as int,
                self.render_size.1 as int,
                cols as int,
                rows as int,
            )),
    {
        if self.fullscreen {
            None
        } else {
            Some(
                header_line(
                    self.title.as_str(),
                    self.render_size.0,
                    self.render_size.1,
                    cols,
                    rows,
                ),
            )
        }
    }

    /// Paints one frame differentially: selects every sampled cell that
    /// changed enough since the last painted frame (all of them when there
    /// is no last frame of the same size), and returns the paint
    /// operations, in row-major order, with redundant colour escapes
    /// dropped. The frame becomes the new last frame.
    pub fn write_frame(
        &mut self,
        frame: Frame,
        terminal_width: u16,
        terminal_height: u16,
    ) -> (ops: Vec<CellPaint>)
        requires
            old(self).wf(),
            frame.wf(),
            frame.width <= 65535,
            frame.height <= 130000,
        ensures
            final(self).wf(),
            final(self).last_frame matches Some(f) && f.same_picture(frame),
            ({
                let stride = step_size_spec(terminal_width, terminal_height);
                let x_off = x_offset_spec(frame.width as int, terminal_width);
                let y_off: int = if old(self).fullscreen { 0 } else { 2 };
                let sel = selection(
                    frame,
                    old(self).last_frame,
                    old(self).pixel_clear_distance,
                    stride,
                );
                &&& ops@.len() == sel.len()
                &&& forall|i: int|
                    0 <= i < sel.len() ==> op_matches(
                        #[trigger] ops@[i],
                        frame.pixel_spec(sel[i].0, sel[i].1),
                        if i == 0 {
                            None
                        } else {
                            Some(frame.pixel_spec(sel[i - 1].0, sel[i - 1].1))
                        },
                        old(self).character_mode,
                        old(self).no_color,
                        sel[i].0 + x_off,
                        sel[i].1 / stride + y_off,
                    )
            }),
            final(self).url == old(self).url,
            final(self).title == old(self).title,
            final(self).fps == old(self).fps,
            final(self).character_mode == old(self).character_mode,
            final(self).pixel_clear_distance == old(self).pixel_clear_distance,
            final(self).scale_mode == old(self).scale_mode,
            final(self).remove_fps_cap == old(self).remove_fps_cap,
            final(self).fullscreen == old(self).fullscreen,
            final(self).hw_accel == old(self).hw_accel,
            final(self).render_size == old(self).render_size,
            final(self).no_color == old(self).no_color,
            final(self).live == old(self).live,
    {
        let stride: u32 = step_size(terminal_width, terminal_height);
        let x_off: u32 = x_offset(frame.width, terminal_width);
        let y_off: u32 = if self.fullscreen {
            0
        } else {
            2
        };
        let cells = select_cells(&frame, &self.last_frame, self.pixel_clear_distance, stride);
        proof {
            assert forall|i: int| 0 <= i < cells@.len() implies (#[trigger] cells@[i]).x + x_off
                <= u16::MAX && cells@[i].y as int / (stride as int) + y_off <= u16::MAX by {
                vstd::arithmetic::div_mod::lemma_div_is_ordered_by_denominator(
                    cells@[i].y as int,
                    2,
                    stride as int,
                );
            }
        }
        let ops = paint_cells(&cells, &self.character_mode, self.no_color, x_off, y_off, stride);
        proof {
            let ghost sel = selection(
                frame,
                self.last_frame,
                self.pixel_clear_distance,
                stride as int,
            );
            assert(cells@.len() == sel.len());
            assert forall|i: int| 0 <= i < sel.len() implies sel[i]
                == (cells@[i].x as int, cells@[i].y as int) by {
                assert(crate::render::cell_coords(cells@)[i] == sel[i]);
            }
        }
        self.last_frame = Some(frame);
        ops
    }

    /// The footer line for the current terminal width, built from the
    /// playback position in frames, the observed render rate, and the last
    /// paint's latency.
    pub fn write_footer(
        &self,
        width: u16,
        frames_seen: u64,
        render_fps: u64,
        duration: DurationType,
        elapsed_micros: u64,
        since_start_micros: u64,
    ) -> (line: String)
        requires
            1 <= self.fps <= 1_000_000,
            frames_seen <= 0x20_0000_0000_0000,
        ensures
            line@ == match duration {
                DurationType::Fixed(total) => footer_fixed_spec(
                    width as int,
                    frames_seen as int,
                    self.fps as int,
                    total as int,
                    render_fps as int,
                    elapsed_micros as int,
                ),
                DurationType::Live => footer_live_spec(
                    width as int,
                    frames_seen as int,
                    self.fps as int,
                    render_fps as int,
                    elapsed_micros as int,
                    since_start_micros as int,
                ),
            },
    {
        match duration {
            DurationType::Fixed(total) => footer_fixed(
                width,
                frames_seen,
                self.fps,
                total,
                render_fps,
                elapsed_micros,
            ),
            DurationType::Live => footer_live(
                width,
                frames_seen,
                self.fps,
                render_fps,
                elapsed_micros,
                since_start_micros,
            ),
        }
    }
}

} // verus!
