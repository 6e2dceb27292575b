//! The end of an ownership, and a holder that ends it at most once.

use vstd::prelude::*;
use crate::call::NativeCall;

verus! {

/// An owner of a native handle. Its life ends by one call into the
/// backend, and `release` consumes the owner to give that call.
pub trait Release: Sized {
    /// The call that gives the handle back.
    spec fn release_call(self) -> NativeCall;

    /// End the ownership: the one call that gives the handle back.
    fn release(self) -> (call: NativeCall)
        ensures
            call == self.release_call(),
            call.is_release(),
    ;
}

/// Holds an owner until it is released or taken out.
///
/// A scope that ends calls `release` without knowing whether the owner has
/// left already. Here that is safe: the call that gives the handle back
/// comes out once, and every later release comes to nothing.
#[derive(Debug)]
pub struct Scoped<T: Release> {
    held: Option<T>,
}

impl<T: Release> Scoped<T> {
    /// The owner held, if it has not left.
    pub closed spec fn held(self) -> Option<T> {
        self.held
    }

    /// What a release does to a holder: nothing is held afterwards, and the
    /// call is that of the owner that was held, if one was.
    pub open spec fn releases(before: Self, after: Self, call: Option<NativeCall>) -> bool {
        &&& after.held() is None
        &&& call == match before.held() {
            Some(owner) => Some(owner.release_call()),
            None => None,
        }
    }

    /// Hold the given owner.
    pub fn new(owner: T) -> (scoped: Self)
        ensures
            scoped.held() == Some(owner),
    {
        Scoped { held: Some(owner) }
    }

    /// The owner held, to use it while it is here.
    pub fn get(&self) -> (owner: Option<&T>)
        ensures
            owner == match self.held() {
                Some(o) => Some(&o),
                None => None,
            },
    {
        self.held.as_ref()
    }

    /// Take the owner out, to hand it on. The holder is empty afterwards,
    /// and the caller is the one who releases.
    pub fn take(&mut self) -> (owner: Option<T>)
        ensures
            owner == old(self).held(),
            final(self).held() is None,
    {
        self.held.take()
    }

    /// Release the owner held and give the call that does so; `None`, and
    /// nothing changed, if the owner has left before.
    pub fn release(&mut self) -> (call: Option<NativeCall>)
        ensures
            Self::releases(*old(self), *final(self), call),
            call is Some <==> old(self).held() is Some,
    {
        match self.held.take() {
            Some(owner) => Some(owner.release()),
            None => None,
        }
    }

    /// Of two releases in a row, whatever was held before the first, the
    /// second makes no call.
    pub proof fn lemma_second_release_makes_no_call(
        start: Self,
        between: Self,
        end: Self,
        first: Option<NativeCall>,
        second: Option<NativeCall>,
    )
        requires
            Self::releases(start, between, first),
            Self::releases(between, end, second),
        ensures
            second is None,
            end.held() is None,
            first is Some ==> start.held() is Some,
    {
    }

    /// After the owner was taken out, a release makes no call.
    pub proof fn lemma_release_after_take_makes_no_call(
        taken: Self,
        end: Self,
        call: Option<NativeCall>,
    )
        requires
            taken.held() is None,
            Self::releases(taken, end, call),
        ensures
            call is None,
    {
    }
}

} // verus!
