//! What the library reports when an operation does not succeed.
//!
//! A handle the backend did not grant, and a query it did not answer, are
//! reported as an absent value and have no type here.

use vstd::prelude::*;

verus! {

/// A copy between two contexts failed in the backend.
#[derive(Debug, Clone, Copy, PartialEq, Eq, Structural)]
pub struct IoError {
    /// The backend's last error code, as read right after the failed call.
    pub code: i32,
}

/// A pixel buffer whose length does not fit the bitmap it is meant for.
#[derive(Debug, Clone, Copy, PartialEq, Eq, Structural)]
pub struct InvalidBufferSize {
    /// The number of bytes the bitmap needs.
    pub expected: i128,
    /// The number of bytes that were given.
    pub actual: usize,
}

} // verus!
