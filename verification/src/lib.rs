//! Terminal video playback core: glyph-ramp rendering, differential repaint,
//! frame pacing, seek/transport bookkeeping, and HUD line composition.
//!
//! The library holds the verified logic of the player: turning a decoded RGB
//! pixel buffer into a minimal list of terminal paint operations, computing
//! how long to sleep between frames, recomputing the playback position on a
//! seek, and laying out the header and footer status lines. Everything that
//! touches the outside world (decoding, the terminal, key input, the async
//! runtime) lives in the surrounding application, which calls into this crate
//! with plain values.

pub mod args;
pub mod frame;
pub mod glyph;
pub mod hud;
pub mod pacing;
pub mod pixel;
pub mod render;
pub mod sampler;
pub mod source;
pub mod transport;
pub mod video;
