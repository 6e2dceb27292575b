//! Ownership discipline for handles of a native 2D graphics backend.
//!
//! The library never talks to the backend. Each operation is split into the
//! call that has to be issued, described as a [`NativeCall`], and the
//! reading of what the backend answered. Whoever drives the library performs
//! the call and hands the answer back.
//!
//! A handle has one owner from the moment it is adopted: a
//! [`DeviceContext`], a [`Brush`], a [`BitmapHandle`] or a plain
//! [`GdiObject`]. An owner cannot be copied and never holds the null
//! handle. [`Release::release`] consumes it and gives the one call that
//! hands the handle back; for a device context that call depends on where
//! the context came from. [`Scoped`] holds an owner for a scope that ends
//! without knowing whether the owner is still there.
//!
//! Owners are bound to the thread they were made on, as the handles are.

pub mod call;
pub mod context;
pub mod error;
pub mod object;
pub mod primitives;
pub mod scope;

pub use crate::call::NativeCall;
pub use crate::context::DeviceContext;
pub use crate::context::Origin;
pub use crate::error::InvalidBufferSize;
pub use crate::error::IoError;
pub use crate::object::BitmapHandle;
pub use crate::object::Brush;
pub use crate::object::GdiObject;
pub use crate::scope::Release;
pub use crate::scope::Scoped;
