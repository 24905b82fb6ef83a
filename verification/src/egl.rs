//! Native EGL platform identification.
//!
//! The capture layer must know which windowing platform an EGL display
//! belongs to. Two of its clues are plain values decided here: the
//! platform constant of a platform-display call, and the platform name an
//! environment override carries. Probing a native display pointer itself
//! stays with the embedding process.

use vstd::prelude::*;

verus! {

/// Platform constant of X11 platform displays.
pub const PLATFORM_X11_EXT: u32 = 0x31D5;

/// Platform constant of Wayland platform displays.
pub const PLATFORM_WAYLAND_EXT: u32 = 0x31D8;

/// Platform constant of XCB platform displays.
pub const PLATFORM_XCB_EXT: u32 = 0x31DC;

/// The native windowing platform behind an EGL display.
#[derive(Clone, Copy, PartialEq, Eq, Debug, Structural)]
pub enum EglPlatform {
    X11,
    Xcb,
    Wayland,
    Unknown,
}

/// The platform a platform-display constant denotes.
pub open spec fn spec_platform_from_ext(platform_ext: u32) -> EglPlatform {
    if platform_ext == PLATFORM_X11_EXT {
        EglPlatform::X11
    } else if platform_ext == PLATFORM_XCB_EXT {
        EglPlatform::Xcb
    } else if platform_ext == PLATFORM_WAYLAND_EXT {
        EglPlatform::Wayland
    } else {
        EglPlatform::Unknown
    }
}

/// Maps a platform-display constant to the platform it denotes.
pub fn egl_platform_from_ext(platform_ext: u32) -> (r: EglPlatform)
    ensures
        r == spec_platform_from_ext(platform_ext),
{
    if platform_ext == PLATFORM_X11_EXT {
        EglPlatform::X11
    } else if platform_ext == PLATFORM_XCB_EXT {
        EglPlatform::Xcb
    } else if platform_ext == PLATFORM_WAYLAND_EXT {
        EglPlatform::Wayland
    } else {
        EglPlatform::Unknown
    }
}

/// The platform an environment override names. The override table treats
/// a Wayland name as the XCB platform.
pub open spec fn spec_platform_from_name(name: Seq<char>) -> EglPlatform {
    if name == "x11"@ {
        EglPlatform::X11
    } else if name == "xcb"@ {
        EglPlatform::Xcb
    } else if name == "wayland"@ {
        EglPlatform::Xcb
    } else {
        EglPlatform::Unknown
    }
}

/// Maps an environment override's platform name to a platform.
pub fn egl_platform_from_name(name: &str) -> (r: EglPlatform)
    ensures
        r == spec_platform_from_name(name@),
{
    proof {
        reveal_strlit("x11");
        reveal_strlit("xcb");
        reveal_strlit("wayland");
    }
    let owned = name.to_owned();
    if owned == "x11".to_owned() {
        EglPlatform::X11
    } else if owned == "xcb".to_owned() {
        EglPlatform::Xcb
    } else if owned == "wayland".to_owned() {
        EglPlatform::Xcb
    } else {
        EglPlatform::Unknown
    }
}

} // verus!
