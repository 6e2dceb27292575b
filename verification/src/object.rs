//! Owners of graphics objects: the generic object, the brush, the bitmap.
//!
//! Each owner holds one handle from the moment the backend granted it until
//! `release` turns the owner into the call that deletes the object. None
//! can be copied, so no handle has two owners and none is deleted twice.

use std::marker::PhantomData;
use std::rc::Rc;
use vstd::prelude::*;
use vstd::arithmetic::mul::lemma_mul_is_associative;
use vstd::std_specs::convert::FromSpecImpl;
use crate::call::NativeCall;
use crate::error::InvalidBufferSize;
use crate::primitives::Color;
use crate::scope::Release;

verus! {

/// The owner of one graphics object of any kind.
#[derive(Debug)]
pub struct GdiObject {
    handle: usize,
    bound_to_thread: PhantomData<Rc<()>>,
}

impl GdiObject {
    /// An owner never holds the null handle.
    #[verifier::type_invariant]
    pub closed spec fn wf(self) -> bool {
        self.handle != 0
    }

    /// The handle of the object owned.
    pub closed spec fn handle(self) -> usize {
        self.handle
    }

    /// The owner of `handle`, if there is an object to own.
    pub(crate) closed spec fn adopted(handle: usize) -> Option<GdiObject> {
        if handle != 0 {
            Some(GdiObject { handle, bound_to_thread: PhantomData })
        } else {
            None
        }
    }

    /// Take ownership of the object behind `handle`, unless it is null.
    pub(crate) fn adopt(handle: usize) -> (object: Option<GdiObject>)
        ensures
            object == Self::adopted(handle),
            object is Some <==> handle != 0,
            object matches Some(o) ==> o.wf() && o.handle() == handle,
    {
        if handle != 0 {
            Some(GdiObject { handle, bound_to_thread: PhantomData })
        } else {
            None
        }
    }

    /// The raw handle, for a call that borrows the object.
    #[inline]
    pub fn get_raw(&self) -> (raw: usize)
        ensures
            raw == self.handle(),
            raw != 0,
    {
        proof {
            use_type_invariant(self);
        }
        self.handle
    }
}

impl Release for GdiObject {
    /// The call that deletes the object, whatever its kind.
    open spec fn release_call(self) -> NativeCall {
        NativeCall::DeleteObject { object: self.handle() }
    }

    fn release(self) -> (call: NativeCall) {
        NativeCall::DeleteObject { object: self.handle }
    }
}

/// The owner of a brush of one solid colour, fixed when it was created.
#[derive(Debug)]
pub struct Brush {
    object: GdiObject,
    color: Color,
}

impl Brush {
    /// The brush's handle is live as long as the brush exists.
    pub open spec fn wf(self) -> bool {
        self.object().wf()
    }

    /// The graphics object that the brush is.
    pub closed spec fn object(self) -> GdiObject {
        self.object
    }

    /// The handle of the brush.
    pub open spec fn handle(self) -> usize {
        self.object().handle()
    }

    /// The colour the brush was created with.
    pub closed spec fn color(self) -> Color {
        self.color
    }

    /// The brush that owns `handle`, the backend's answer to `call`.
    pub closed spec fn adopted(call: NativeCall, handle: usize) -> Option<Brush> {
        match (call, GdiObject::adopted(handle)) {
            (NativeCall::CreateSolidBrush { color }, Some(object)) => Some(
                Brush { object, color: Color::unpacked(color as int) },
            ),
            _ => None,
        }
    }

    /// The call that creates a solid brush of the given colour.
    #[inline]
    pub fn create_solid_brush(color: Color) -> (call: NativeCall)
        ensures
            call == (NativeCall::CreateSolidBrush { color: color.packed() as u32 }),
    {
        proof {
            Color::lemma_pack_unpack(color);
        }
        NativeCall::CreateSolidBrush { color: color.to_native() }
    }

    /// Take ownership of the brush that the backend answered `call` with.
    ///
    /// There is a brush exactly if `call` creates one and the answer is
    /// not null. `handle` has to be what the backend answered to this very
    /// call.
    pub fn adopt(call: NativeCall, handle: usize) -> (brush: Option<Brush>)
        ensures
            brush == Self::adopted(call, handle),
            brush is Some <==> call is CreateSolidBrush && handle != 0,
            brush matches Some(b) ==> {
                &&& b.wf()
                &&& b.handle() == handle
                &&& call matches NativeCall::CreateSolidBrush { color }
                &&& b.color() == Color::unpacked(color as int)
            },
    {
        match call {
            NativeCall::CreateSolidBrush { color } => match GdiObject::adopt(handle) {
                Some(object) => Some(Brush { object, color: Color::from_native(color) }),
                None => None,
            },
            _ => None,
        }
    }

    /// Get the raw inner value.
    #[inline]
    pub fn get_raw(&self) -> (raw: usize)
        ensures
            raw == self.handle(),
            raw != 0,
    {
        self.object.get_raw()
    }

    /// The colour the brush paints with.
    #[inline]
    pub fn get_color(&self) -> (color: Color)
        ensures
            color == self.color(),
    {
        self.color
    }

    /// The brush seen as a graphics object, to select it into a context.
    #[inline]
    pub fn as_object(&self) -> (object: &GdiObject)
        ensures
            *object == self.object(),
    {
        &self.object
    }

    /// A brush adopted from the call that `create_solid_brush` builds
    /// paints with the colour asked for, and its release deletes the very
    /// handle the backend granted.
    pub proof fn lemma_created_brush(color: Color, handle: usize)
        requires
            handle != 0,
        ensures
            Brush::adopted(NativeCall::CreateSolidBrush { color: color.packed() as u32 }, handle)
                matches Some(brush) && {
                &&& brush.wf()
                &&& brush.color() == color
                &&& brush.release_call() == (NativeCall::DeleteObject { object: handle })
            },
    {
        Color::lemma_pack_unpack(color);
    }
}

impl Release for Brush {
    /// The call that deletes the brush.
    open spec fn release_call(self) -> NativeCall {
        self.object().release_call()
    }

    fn release(self) -> (call: NativeCall) {
        self.object.release()
    }
}

/// The owner of a bitmap.
#[derive(Debug)]
pub struct BitmapHandle {
    object: GdiObject,
}

impl BitmapHandle {
    /// The bitmap's handle is live as long as the owner exists.
    pub open spec fn wf(self) -> bool {
        self.object().wf()
    }

    /// The graphics object that the bitmap is.
    pub closed spec fn object(self) -> GdiObject {
        self.object
    }

    /// The handle of the bitmap.
    pub open spec fn handle(self) -> usize {
        self.object().handle()
    }

    /// The number of bytes one pixel takes in one plane: its bits, rounded
    /// up to whole bytes.
    pub open spec fn bytes_per_pixel(bits_per_pixel: u32) -> int {
        (bits_per_pixel + 7) / 8
    }

    /// The number of bytes the pixel buffer of a bitmap has to hold.
    pub open spec fn buffer_len(width: i32, height: i32, planes: u32, bits_per_pixel: u32) -> int {
        width * height * Self::bytes_per_pixel(bits_per_pixel) * planes
    }

    /// The bitmap that owns `handle`, the backend's answer to `call`.
    pub closed spec fn adopted(call: NativeCall, handle: usize) -> Option<BitmapHandle> {
        match (call, GdiObject::adopted(handle)) {
            (NativeCall::CreateBitmap { .. }, Some(object)) => Some(BitmapHandle { object }),
            _ => None,
        }
    }

    /// The call that makes a bitmap from the given data, or the reason why
    /// the data cannot be a bitmap of that shape: its length is not the
    /// number of bytes such a bitmap needs. The backend would not notice
    /// and show pixels nobody wrote.
    ///
    /// The data is not part of the call; it travels beside it.
    pub fn create(width: i32, height: i32, planes: u32, bits_per_pixel: u32, data: &[u8]) -> (call:
        Result<NativeCall, InvalidBufferSize>)
        ensures
            call is Ok <==> data@.len() == Self::buffer_len(width, height, planes, bits_per_pixel),
            call matches Ok(c) ==> c == (NativeCall::CreateBitmap {
                width,
                height,
                planes,
                bits_per_pixel,
            }),
            call matches Err(e) ==> {
                &&& e.expected == Self::buffer_len(width, height, planes, bits_per_pixel)
                &&& e.actual == data@.len()
            },
    {
        assert(-0x4000_0000_0000_0000 <= width * height <= 0x4000_0000_0000_0000)
            by (nonlinear_arith)
            requires
                -0x8000_0000 <= width <= 0x8000_0000,
                -0x8000_0000 <= height <= 0x8000_0000,
        ;
        let area: i64 = (width as i64) * (height as i64);
        let depth: u64 = (bits_per_pixel as u64 + 7) / 8;
        assert(depth * planes <= 0x2000_0000 * 0x1_0000_0000) by (nonlinear_arith)
            requires
                0 <= depth <= 0x2000_0000,
                0 <= planes <= 0x1_0000_0000,
        ;
        let per_pixel: u64 = depth * (planes as u64);
        assert(-0x4000_0000_0000_0000 * 0x2000_0000_0000_0000 <= area * per_pixel
            <= 0x4000_0000_0000_0000 * 0x2000_0000_0000_0000) by (nonlinear_arith)
            requires
                -0x4000_0000_0000_0000 <= area <= 0x4000_0000_0000_0000,
                0 <= per_pixel <= 0x2000_0000_0000_0000,
        ;
        let expected: i128 = (area as i128) * (per_pixel as i128);
        proof {
            lemma_mul_is_associative(width * height, depth as int, planes as int);
        }
        let actual: usize = data.len();
        if expected == actual as i128 {
            Ok(NativeCall::CreateBitmap { width, height, planes, bits_per_pixel })
        } else {
            Err(InvalidBufferSize { expected, actual })
        }
    }

    /// Take ownership of the bitmap that the backend answered `call` with.
    ///
    /// There is a bitmap exactly if `call` creates one and the answer is
    /// not null. `handle` has to be what the backend answered to this very
    /// call.
    pub fn adopt(call: NativeCall, handle: usize) -> (bitmap: Option<BitmapHandle>)
        ensures
            bitmap == Self::adopted(call, handle),
            bitmap is Some <==> call is CreateBitmap && handle != 0,
            bitmap matches Some(b) ==> b.wf() && b.handle() == handle,
    {
        match call {
            NativeCall::CreateBitmap { .. } => match GdiObject::adopt(handle) {
                Some(object) => Some(BitmapHandle { object }),
                None => None,
            },
            _ => None,
        }
    }

    /// Return a raw bitmap handle.
    #[inline]
    pub fn get_raw(&self) -> (raw: usize)
        ensures
            raw == self.handle(),
            raw != 0,
    {
        self.object.get_raw()
    }

    /// The bitmap seen as a graphics object, to select it into a context.
    #[inline]
    pub fn as_object(&self) -> (object: &GdiObject)
        ensures
            *object == self.object(),
    {
        &self.object
    }

    /// The call that reads back the description of this bitmap.
    pub fn get_dimensions(&self) -> (call: NativeCall)
        ensures
            call == (NativeCall::GetObject { object: self.handle() }),
    {
        NativeCall::GetObject { object: self.object.get_raw() }
    }

    /// The dimensions of a bitmap, as the backend answered the query for
    /// them: width and height, or nothing when the status is zero.
    pub fn dimensions_result(status: i32, width: i32, height: i32) -> (size: Option<(i32, i32)>)
        ensures
            size == if status == 0 {
                None
            } else {
                Some((width, height))
            },
    {
        if status == 0 {
            None
        } else {
            Some((width, height))
        }
    }

    /// A bitmap adopted from a handle the backend granted is deleted by
    /// the call that names that handle. The graphics object it converts
    /// into has the same handle and is deleted by the same call.
    pub proof fn lemma_created_bitmap(call: NativeCall, handle: usize)
        requires
            call is CreateBitmap,
            handle != 0,
        ensures
            BitmapHandle::adopted(call, handle) matches Some(bitmap) && {
                &&& bitmap.wf()
                &&& bitmap.release_call() == (NativeCall::DeleteObject { object: handle })
                &&& bitmap.object().handle() == handle
                &&& bitmap.object().release_call() == bitmap.release_call()
            },
    {
    }
}

impl Release for BitmapHandle {
    /// The call that deletes the bitmap.
    open spec fn release_call(self) -> NativeCall {
        self.object().release_call()
    }

    fn release(self) -> (call: NativeCall) {
        self.object.release()
    }
}

impl From<BitmapHandle> for GdiObject {
    /// Give up the bitmap's type; the object keeps its one owner.
    fn from(bitmap: BitmapHandle) -> (object: GdiObject) {
        bitmap.object
    }
}

impl FromSpecImpl<BitmapHandle> for GdiObject {
    open spec fn obeys_from_spec() -> bool {
        true
    }

    open spec fn from_spec(bitmap: BitmapHandle) -> GdiObject {
        bitmap.object()
    }
}

} // verus!
