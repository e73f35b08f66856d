//! An owning wrapper around a loaded library module.

use crate::winerror::OsError;
use vstd::prelude::*;

verus! {

/// An owned module handle for a dynamically loaded library.
#[derive(Debug)]
pub struct HModule {
    raw: usize,
}

impl View for HModule {
    type V = usize;

    closed spec fn view(&self) -> usize {
        self.raw
    }
}

impl HModule {
    /// A live module handle is always non-null.
    pub open spec fn wf(&self) -> bool {
        self@ != 0
    }

    /// Take ownership of what the library-loading call returned: a
    /// null module word reports failure with the last error, anything
    /// else is an owned module.
    pub fn load(raw: usize, last_error: u32) -> (r: Result<HModule, OsError>)
        ensures
            raw == 0 <==> r is Err,
            r matches Err(e) ==> e == (OsError { code: last_error }),
            r matches Ok(m) ==> m@ == raw && m.wf(),
    {
        if raw == 0 {
            Err(OsError { code: last_error })
        } else {
            Ok(HModule { raw })
        }
    }

    /// The underlying module word, without giving up ownership.
    pub fn as_raw(&self) -> (r: usize)
        ensures
            r == self@,
    {
        self.raw
    }

    /// Consume this value, accounting for the one release call made on
    /// its module. On failure the still owned value comes back beside
    /// the error.
    pub fn destroy(self, succeeded: bool, last_error: u32) -> (r: Result<(), (HModule, OsError)>)
        ensures
            succeeded <==> r is Ok,
            r matches Err(p) ==> p.0 == self && p.1 == (OsError { code: last_error }),
    {
        if succeeded {
            Ok(())
        } else {
            Err((self, OsError { code: last_error }))
        }
    }
}

} // verus!
