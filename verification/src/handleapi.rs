//! An owning wrapper around one opaque native handle, with fallible,
//! recoverable release.

use crate::winerror::OsError;
use vstd::prelude::*;

verus! {

/// An owned, non-null native handle.
///
/// A live value always denotes a handle not yet released. Release is
/// explicit and consuming: once a value has been closed or its raw
/// word taken back, no further use can be expressed.
#[derive(Debug)]
pub struct Handle {
    raw: usize,
}

impl View for Handle {
    type V = usize;

    closed spec fn view(&self) -> usize {
        self.raw
    }
}

impl Handle {
    /// A live handle is always non-null.
    pub open spec fn wf(&self) -> bool {
        self@ != 0
    }

    /// Take ownership of a raw handle word.
    ///
    /// The word must be a valid, non-null handle obtained from a
    /// successful call; the caller attests to that.
    pub fn from_raw(raw: usize) -> (r: Handle)
        requires
            raw != 0,
        ensures
            r@ == raw,
            r.wf(),
    {
        Handle { raw }
    }

    /// The underlying word, without giving up ownership.
    pub fn as_raw(&self) -> (r: usize)
        ensures
            r == self@,
    {
        self.raw
    }

    /// The underlying word, consuming this value without releasing it.
    /// The caller becomes responsible for the eventual release.
    pub fn into_raw(self) -> (r: usize)
        ensures
            r == self@,
    {
        self.raw
    }

    /// Consume this value, accounting for the one release call made on
    /// its handle.
    ///
    /// `succeeded` and `last_error` are what the release call
    /// returned. On success the handle is gone; on failure the still
    /// owned value comes back beside the error, so the caller can
    /// retry or let it go.
    pub fn close(self, succeeded: bool, last_error: u32) -> (r: Result<(), (Handle, OsError)>)
        ensures
            succeeded <==> r is Ok,
            r matches Err(p) ==> p.0 == self && p.1 == (OsError { code: last_error }),
    {
        if succeeded {
            Ok(())
        } else {
            Err((self, OsError { code: last_error }))
        }
    }
}

} // verus!
