//! The owner of a device context, and the operations a context offers.

use std::marker::PhantomData;
use std::rc::Rc;
use vstd::prelude::*;
use crate::call::NativeCall;
use crate::call::HORZRES;
use crate::call::VERTRES;
use crate::error::IoError;
use crate::object::Brush;
use crate::object::GdiObject;
use crate::primitives::NativeRect;
use crate::primitives::RasterOperation;
use crate::primitives::Rect;
use crate::scope::Release;

verus! {

/// Where a device context came from, which decides how it is given back.
#[derive(Debug, Clone, Copy, PartialEq, Eq, Structural)]
pub enum Origin {
    /// Acquired against a window; window zero is the whole desktop. The
    /// context is released to that same window.
    Window { window: usize },
    /// Created in memory, compatible with another context. The context is
    /// deleted.
    Memory,
}

/// The owner of one device context.
#[derive(Debug)]
pub struct DeviceContext {
    handle: usize,
    origin: Origin,
    bound_to_thread: PhantomData<Rc<()>>,
}

impl DeviceContext {
    /// An owner never holds the null handle.
    #[verifier::type_invariant]
    pub closed spec fn wf(self) -> bool {
        self.handle != 0
    }

    /// The handle of the context owned.
    pub closed spec fn handle(self) -> usize {
        self.handle
    }

    /// Where the context came from.
    pub closed spec fn origin(self) -> Origin {
        self.origin
    }

    /// The origin of the context that `call` hands out, if it hands out one.
    pub open spec fn origin_granted(call: NativeCall) -> Option<Origin> {
        match call {
            NativeCall::GetDc { window } => Some(Origin::Window { window }),
            NativeCall::CreateCompatibleDc { .. } => Some(Origin::Memory),
            _ => None,
        }
    }

    /// The context that owns `hdc`, the backend's answer to `call`.
    pub closed spec fn adopted(call: NativeCall, hdc: usize) -> Option<DeviceContext> {
        match Self::origin_granted(call) {
            Some(origin) if hdc != 0 => Some(
                DeviceContext { handle: hdc, origin, bound_to_thread: PhantomData },
            ),
            _ => None,
        }
    }

    /// The call that acquires the context of the window `hwnd`.
    pub fn from_hwnd(hwnd: usize) -> (call: NativeCall)
        ensures
            call == (NativeCall::GetDc { window: hwnd }),
    {
        NativeCall::GetDc { window: hwnd }
    }

    /// The call that acquires the context of the whole desktop.
    pub fn desktop() -> (call: NativeCall)
        ensures
            call == (NativeCall::GetDc { window: 0 }),
    {
        Self::from_hwnd(0)
    }

    /// The call that creates a memory context compatible with this one.
    pub fn get_compatible(&self) -> (call: NativeCall)
        ensures
            call == (NativeCall::CreateCompatibleDc { reference: self.handle() }),
    {
        NativeCall::CreateCompatibleDc { reference: self.handle }
    }

    /// Take ownership of the context that the backend answered `call` with.
    ///
    /// There is a context exactly if `call` hands one out and the answer is
    /// not null. Its origin is the one the call stands for, and stays with
    /// it until release.
    ///
    /// `hdc` has to be what the backend answered to this very call. The
    /// library cannot tell; an owner made of anything else owns nothing.
    pub fn adopt(call: NativeCall, hdc: usize) -> (context: Option<DeviceContext>)
        ensures
            context == Self::adopted(call, hdc),
            context is Some <==> Self::origin_granted(call) is Some && hdc != 0,
            context matches Some(dc) ==> {
                &&& dc.wf()
                &&& dc.handle() == hdc
                &&& Some(dc.origin()) == Self::origin_granted(call)
            },
    {
        if hdc == 0 {
            return None;
        }
        match call {
            NativeCall::GetDc { window } => Some(
                DeviceContext {
                    handle: hdc,
                    origin: Origin::Window { window },
                    bound_to_thread: PhantomData,
                },
            ),
            NativeCall::CreateCompatibleDc { .. } => Some(
                DeviceContext { handle: hdc, origin: Origin::Memory, bound_to_thread: PhantomData },
            ),
            _ => None,
        }
    }

    /// Returns the raw handle of the context.
    pub fn get_raw_hdc(&self) -> (raw: usize)
        ensures
            raw == self.handle(),
            raw != 0,
    {
        proof {
            use_type_invariant(self);
        }
        self.handle
    }

    /// Where the context came from.
    pub fn get_origin(&self) -> (origin: Origin)
        ensures
            origin == self.origin(),
    {
        self.origin
    }

    /// The call that selects a graphics object in this context.
    ///
    /// The object is only borrowed: it stays with its owner, who deletes
    /// it. The backend's answer is the handle of the object that was
    /// selected before; nobody comes to own it by that.
    pub fn select_object(&self, object: &GdiObject) -> (call: NativeCall)
        ensures
            call == (NativeCall::SelectObject { context: self.handle(), object: object.handle() }),
    {
        NativeCall::SelectObject { context: self.handle, object: object.get_raw() }
    }

    /// The call that copies the block of `cx` by `cy` pixels at
    /// `(x1, y1)` of `src` to `(x, y)` of this context.
    #[allow(clippy::too_many_arguments)]
    pub fn bit_blit(
        &self,
        x: i32,
        y: i32,
        cx: i32,
        cy: i32,
        src: &Self,
        x1: i32,
        y1: i32,
        rop: RasterOperation,
    ) -> (call: NativeCall)
        ensures
            call == (NativeCall::BitBlt {
                dest: self.handle(),
                x,
                y,
                width: cx,
                height: cy,
                src: src.handle(),
                src_x: x1,
                src_y: y1,
                rop: rop@,
            }),
    {
        NativeCall::BitBlt {
            dest: self.handle,
            x,
            y,
            width: cx,
            height: cy,
            src: src.handle,
            src_x: x1,
            src_y: y1,
            rop: rop.bits(),
        }
    }

    /// The call that copies `src_rect` of `src` to `dest_rect` of this
    /// context, which the backend scales where the two differ in size.
    /// Origins and extents reach the backend as they are given.
    pub fn stretch_blit(
        &self,
        dest_rect: Rect,
        src: &Self,
        src_rect: Rect,
        rop: RasterOperation,
    ) -> (call: NativeCall)
        ensures
            call == (NativeCall::StretchBlt {
                dest: self.handle(),
                dest_x: dest_rect.x,
                dest_y: dest_rect.y,
                dest_width: dest_rect.width,
                dest_height: dest_rect.height,
                src: src.handle(),
                src_x: src_rect.x,
                src_y: src_rect.y,
                src_width: src_rect.width,
                src_height: src_rect.height,
                rop: rop@,
            }),
    {
        NativeCall::StretchBlt {
            dest: self.handle,
            dest_x: dest_rect.x,
            dest_y: dest_rect.y,
            dest_width: dest_rect.width,
            dest_height: dest_rect.height,
            src: src.handle,
            src_x: src_rect.x,
            src_y: src_rect.y,
            src_width: src_rect.width,
            src_height: src_rect.height,
            rop: rop.bits(),
        }
    }

    /// What a copy came to, as the backend answered it: done, or failed
    /// with the backend's last error code.
    pub fn blit_result(status: i32, last_error: i32) -> (result: Result<(), IoError>)
        ensures
            result == if status == 0 {
                Err::<(), IoError>(IoError { code: last_error })
            } else {
                Ok::<(), IoError>(())
            },
    {
        if status == 0 {
            Err(IoError { code: last_error })
        } else {
            Ok(())
        }
    }

    /// The call that fills `rect` of this context with `brush`.
    pub fn fill_rect(&self, rect: NativeRect, brush: &Brush) -> (call: NativeCall)
        ensures
            call == (NativeCall::FillRect { context: self.handle(), rect, brush: brush.handle() }),
    {
        NativeCall::FillRect { context: self.handle, rect, brush: brush.get_raw() }
    }

    /// Whether a fill succeeded, as the backend answered it.
    pub fn fill_result(status: i32) -> (filled: bool)
        ensures
            filled <==> status != 0,
    {
        status != 0
    }

    /// The call that asks for the width of this context in physical
    /// pixels. The backend's answer is that width.
    pub fn physical_width(&self) -> (call: NativeCall)
        ensures
            call == (NativeCall::GetDeviceCaps { context: self.handle(), index: HORZRES }),
    {
        NativeCall::GetDeviceCaps { context: self.handle, index: HORZRES }
    }

    /// The call that asks for the height of this context in physical
    /// pixels. The backend's answer is that height.
    pub fn physical_height(&self) -> (call: NativeCall)
        ensures
            call == (NativeCall::GetDeviceCaps { context: self.handle(), index: VERTRES }),
    {
        NativeCall::GetDeviceCaps { context: self.handle, index: VERTRES }
    }

    /// The way a context is given back is the way it was obtained: a
    /// context acquired from a window goes back to that window, a context
    /// created in memory is deleted, and never the other way round.
    pub proof fn lemma_release_matches_origin(call: NativeCall, hdc: usize)
        ensures
            Self::adopted(call, hdc) matches Some(dc) ==> {
                &&& call matches NativeCall::GetDc { window } ==> dc.release_call() == (
                    NativeCall::ReleaseDc { window, context: hdc }
                )
                &&& call is CreateCompatibleDc ==> dc.release_call() == (
                    NativeCall::DeleteDc { context: hdc }
                )
                &&& dc.release_call() is ReleaseDc <==> call is GetDc
                &&& dc.release_call() is DeleteDc <==> call is CreateCompatibleDc
            },
    {
    }

    /// A context created compatible with a valid one, from a handle the
    /// backend granted, is deleted when it is released; the call that
    /// hands a context to a window is not made for it.
    pub proof fn lemma_compatible_context_is_deleted(reference: DeviceContext, hdc: usize)
        requires
            reference.wf(),
            hdc != 0,
        ensures
            Self::adopted(NativeCall::CreateCompatibleDc { reference: reference.handle() }, hdc)
                matches Some(made) && {
                &&& made.wf()
                &&& made.origin() == Origin::Memory
                &&& made.release_call() == (NativeCall::DeleteDc { context: hdc })
                &&& !(made.release_call() is ReleaseDc)
            },
    {
    }

    /// Where the backend grants no context, none is adopted, whatever the
    /// window asked for.
    pub proof fn lemma_no_context_without_handle(hwnd: usize)
        ensures
            Self::adopted(NativeCall::GetDc { window: hwnd }, 0) is None,
    {
    }
}

impl Release for DeviceContext {
    /// The call that gives the context back: to its window where it came
    /// from one, to deletion where it was created in memory.
    open spec fn release_call(self) -> NativeCall {
        match self.origin() {
            Origin::Window { window } => NativeCall::ReleaseDc { window, context: self.handle() },
            Origin::Memory => NativeCall::DeleteDc { context: self.handle() },
        }
    }

    fn release(self) -> (call: NativeCall) {
        match self.origin {
            Origin::Window { window } => NativeCall::ReleaseDc { window, context: self.handle },
            Origin::Memory => NativeCall::DeleteDc { context: self.handle },
        }
    }
}

} // verus!
