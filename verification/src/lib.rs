//! Capture-session bridge for a media-IPC video producer.
//!
//! The library models the loop-thread side of a capture session: a session
//! actor that registers video streams, a per-stream negotiator that agrees on
//! a pixel format and buffer layout with the remote consumer, and a bounded
//! buffer hand-off queue that enforces backpressure between the producer
//! thread and the IPC loop.

use vstd::prelude::*;

pub mod backend;
pub mod buffer;
pub mod clock;
pub mod cursor;
pub mod egl;
pub mod format;
pub mod format_info;
pub mod handoff;
pub mod logger;
mod names;
pub mod params;
pub mod pod;
pub mod session;
pub mod stream;

pub use backend::AddBufferMetaCbs;
pub use backend::EnumFormatInfo;
pub use backend::FixateFormat;
pub use backend::StreamBackend;
pub use backend::StreamInfo;
pub use buffer::BufferBitmap;
pub use buffer::BufferCursorInfo;
pub use buffer::BufferHandle;
pub use buffer::BufferInfo;
pub use buffer::BufferPlaneInfo;
pub use buffer::BufferUserHandle;
pub use cursor::CursorSnapshotInfo;
pub use cursor::as_cursor_info;
pub use egl::EglPlatform;
pub use egl::egl_platform_from_ext;
pub use format::Format;
pub use format::FormatDescriptor;
pub use format::Transfer;
pub use format_info::VkFormatInfo;
pub use format_info::client_format_get_info;
pub use format_info::vk_format_get_info;
pub use format_info::vk_format_get_transfer;
pub use logger::init_logger;
pub use names::get_app_name;
pub use session::SessionCore;
pub use session::SessionError;
pub use stream::StreamCore;

verus! {

/// A position in window or bitmap coordinates.
#[derive(Clone, Copy, Debug, PartialEq, Eq, Structural)]
pub struct Point {
    pub x: i32,
    pub y: i32,
}

} // verus!
