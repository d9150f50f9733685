//! Command-line options as plain data: rendering mode, scaling, and the
//! hardware-acceleration choice handed through to the decoder.

use vstd::prelude::*;

verus! {

/// How a sampled pixel is turned into a glyph: either a single solid glyph
/// coloured by the pixel, or a density ramp indexed by brightness.
#[derive(Clone, Copy, Debug, PartialEq, Eq, Structural)]
pub enum CharacterMode {
    /// A full block glyph, true-colour foreground.
    Block,
    /// A bullet glyph, true-colour foreground.
    Dots,
    /// A ten-glyph density ramp, grey foreground over the pixel colour.
    Ascii,
    /// A fine density ramp of more than seventy glyphs.
    AsciiExtended,
    /// A digit ramp.
    Numbers,
    /// A short ramp of unicode shade blocks.
    Blocks,
}

/// How the decoder scales the source picture to the terminal.
#[derive(Clone, Copy, Debug, PartialEq, Eq, Structural)]
pub enum ScaleMode {
    /// Keep the aspect ratio, fit inside the render target.
    Fit,
    /// Stretch to exactly the render target.
    Stretch,
}

/// Hardware-acceleration device requested for decoding. The decoder may
/// reject a device that the machine lacks; `Disabled` decodes in software.
#[derive(Clone, Copy, Debug, PartialEq, Eq, Structural)]
pub enum HardwareAcceleration {
    /// No hardware acceleration: decode in software.
    Disabled,
    /// Video Decode and Presentation API for Unix (VDPAU)
    Vdpau,
    /// NVIDIA CUDA
    Cuda,
    /// Video Acceleration API (VA-API)
    VaApi,
    /// DirectX Video Acceleration 2.0
    Dxva2,
    /// Quick Sync Video
    Qsv,
    /// VideoToolbox
    VideoToolbox,
    /// Direct3D 11 Video Acceleration
    D3D11Va,
    /// Linux Direct Rendering Manager
    Drm,
    /// OpenCL
    OpenCl,
    /// MediaCodec
    MeiaCodec,
    /// Vulkan
    Vulkan,
    /// Direct3D 12 Video Acceleration
    D3D12Va,
}

/// The playback request as parsed from the command line. Options left unset
/// stay `None` and fall back to defaults when the player is built.
#[derive(Debug)]
pub struct Args {
    /// The URL or file path of the video to play.
    pub url: String,
    /// Colour distance from the previous frame's cell below which the cell
    /// is not repainted; 0 repaints every cell.
    pub pixel_clear_distance: Option<u16>,
    /// The character mode to use.
    pub mode: Option<CharacterMode>,
    /// The scale mode to use.
    pub scale: Option<ScaleMode>,
    /// Paint frames as fast as they arrive instead of pacing to the source rate.
    pub remove_fps_cap: bool,
    /// The hardware acceleration device to use.
    pub hw_accel: Option<HardwareAcceleration>,
    /// Use the whole terminal, with no header or footer lines.
    pub fullscreen: bool,
    /// Render without colour.
    pub no_color: bool,
}

} // verus!
