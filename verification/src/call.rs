//! The calls the library asks its driver to make.

use vstd::prelude::*;
use crate::primitives::NativeRect;

verus! {

/// The device capability that is the width of the display, in pixels.
pub const HORZRES: i32 = 8;

/// The device capability that is the height of the display, in raster lines.
pub const VERTRES: i32 = 10;

/// One call into the native graphics backend, with the exact arguments it
/// is to be made with. Handles are plain machine words; zero is the null
/// handle.
#[must_use]
#[derive(Debug, Clone, Copy, PartialEq, Eq, Structural)]
pub enum NativeCall {
    /// Acquire the context of a window; window zero is the whole desktop.
    /// The answer is the context's handle, or null.
    GetDc { window: usize },
    /// Hand a window's context back to that window.
    ReleaseDc { window: usize, context: usize },
    /// Create a memory context compatible with `reference`. The answer is
    /// the new context's handle, or null.
    CreateCompatibleDc { reference: usize },
    /// Delete a memory context.
    DeleteDc { context: usize },
    /// Make `object` the active object of `context`. The answer is the
    /// handle of the object it replaces.
    SelectObject { context: usize, object: usize },
    /// Copy a block of pixels from `src` to `dest`. The answer is a
    /// status, zero on failure.
    BitBlt {
        dest: usize,
        x: i32,
        y: i32,
        width: i32,
        height: i32,
        src: usize,
        src_x: i32,
        src_y: i32,
        rop: u32,
    },
    /// Copy a block of pixels from `src` to `dest`, scaling it to the
    /// destination's extent. The answer is a status, zero on failure.
    StretchBlt {
        dest: usize,
        dest_x: i32,
        dest_y: i32,
        dest_width: i32,
        dest_height: i32,
        src: usize,
        src_x: i32,
        src_y: i32,
        src_width: i32,
        src_height: i32,
        rop: u32,
    },
    /// Fill `rect` of `context` with `brush`. The answer is a status, zero
    /// on failure.
    FillRect { context: usize, rect: NativeRect, brush: usize },
    /// Query one capability of the device behind `context`. The answer is
    /// the capability's value.
    GetDeviceCaps { context: usize, index: i32 },
    /// Create a brush of one solid colour, given in packed form. The
    /// answer is the brush's handle, or null.
    CreateSolidBrush { color: u32 },
    /// Delete a graphics object of any kind.
    DeleteObject { object: usize },
    /// Create a bitmap from a pixel buffer, which travels beside this
    /// call. The answer is the bitmap's handle, or null.
    CreateBitmap { width: i32, height: i32, planes: u32, bits_per_pixel: u32 },
    /// Read back the description of a bitmap. The answer is a status,
    /// zero on failure, with the bitmap's width and height.
    GetObject { object: usize },
}

impl NativeCall {
    /// Whether the call gives a handle back to its owner, and so ends the
    /// life of a wrapper.
    pub open spec fn is_release(self) -> bool {
        self is ReleaseDc || self is DeleteDc || self is DeleteObject
    }
}

} // verus!
