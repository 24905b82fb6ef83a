//! The capture backend: the stream's injected collaborator.
//!
//! The negotiator does not know concrete GPU types; the backend allocates
//! and frees the GPU-side resource behind each buffer, commits to one
//! format/modifier out of an offered set, and fills frames on processing.
//! Implementations live with the embedding process; the stream logic is
//! verified for every implementation.

use crate::buffer::BufferCursorInfo;
use crate::buffer::BufferInfo;
use crate::buffer::BufferUserHandle;
use crate::format::Format;
use vstd::prelude::*;

verus! {

/// A set of acceptable format/modifier combinations offered for fixation.
#[derive(Clone, Debug, PartialEq)]
pub struct EnumFormatInfo {
    pub formats: Vec<Format>,
    pub modifiers: Vec<u64>,
}

/// The single combination the backend commits to, plus its plane count.
#[derive(Clone, Copy, Debug, PartialEq)]
pub struct FixateFormat {
    pub modifier: Option<u64>,
    pub num_planes: u32,
}

/// What the backend attaches to a processed frame.
pub struct AddBufferMetaCbs {
    /// A cursor snapshot to write into the buffer's cursor block, if any.
    pub add_cursor: Option<BufferCursorInfo>,
}

/// Parameters of a stream to create.
#[derive(Clone, Debug, PartialEq)]
pub struct StreamInfo {
    pub width: u32,
    pub height: u32,
    pub enum_formats: Vec<EnumFormatInfo>,
    pub max_buffers: u32,
}

/// The backend callbacks a stream drives.
///
/// The trait is implemented by the embedding process; no contract is
/// assumed of it, and the stream states what holds of its own behaviour
/// whatever an implementation returns.
pub trait StreamBackend {
    /// Commits to one modifier and plane count out of the offered set, or
    /// reports the set incompatible.
    fn fixate_format(&mut self, info: EnumFormatInfo) -> Option<FixateFormat>;

    /// Allocates the GPU-side resource for a new buffer and describes its
    /// planes, or fails.
    fn add_buffer(&mut self) -> Option<BufferInfo>;

    /// Frees the GPU-side resource behind a removed buffer.
    fn remove_buffer(&mut self, user_handle: BufferUserHandle);

    /// Fills the frame behind `user_handle`; `cursor_available` tells the
    /// backend whether a cursor snapshot it returns can be attached.
    fn process_buffer(&mut self, user_handle: BufferUserHandle, cursor_available: bool)
        -> AddBufferMetaCbs;
}

} // verus!
