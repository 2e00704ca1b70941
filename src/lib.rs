//! Live video capture pipeline: the byte framing of frame messages, the pixel
//! codec, the capture session's reconfiguration state machine, the capability
//! table that validates configuration writes, and the bounded delivery queue.
pub mod bytes;
pub mod codec;
pub mod config;
pub mod format;
pub mod queue;
pub mod render;
pub mod session;

pub use bytes::{from_bytes, to_bytes};
pub use render::Render;
