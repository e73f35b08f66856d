//! An owned process handle and its operations' decisions.

use crate::handleapi::Handle;
use crate::winerror::OsError;
use vstd::prelude::*;

verus! {

/// The access right to signal termination.
pub const PROCESS_TERMINATE: u32 = 0x0001;

/// The access right to wait on the process.
pub const PROCESS_SYNCHRONIZE: u32 = 0x0010_0000;

/// The return value of a wait call that failed.
pub const WAIT_FAILED: u32 = 0xFFFF_FFFF;

/// Process access rights, encoded as a bit-set at the call boundary.
#[derive(Clone, Copy, Debug, PartialEq, Eq, Structural)]
pub struct ProcessAccessRights {
    bits: u32,
}

impl View for ProcessAccessRights {
    type V = u32;

    closed spec fn view(&self) -> u32 {
        self.bits
    }
}

impl ProcessAccessRights {
    /// Only the named rights may be set.
    pub open spec fn wf(&self) -> bool {
        self@ & !(PROCESS_TERMINATE | PROCESS_SYNCHRONIZE) == 0
    }

    /// No rights.
    pub fn empty() -> (r: ProcessAccessRights)
        ensures
            r@ == 0,
            r.wf(),
    {
        proof {
            assert(0u32 & !(PROCESS_TERMINATE | PROCESS_SYNCHRONIZE) == 0) by (bit_vector);
        }
        ProcessAccessRights { bits: 0 }
    }

    /// The terminate right.
    pub fn terminate() -> (r: ProcessAccessRights)
        ensures
            r@ == PROCESS_TERMINATE,
            r.wf(),
    {
        proof {
            assert(0x0001u32 & !(0x0001u32 | 0x0010_0000u32) == 0) by (bit_vector);
        }
        ProcessAccessRights { bits: PROCESS_TERMINATE }
    }

    /// The synchronize right.
    pub fn synchronize() -> (r: ProcessAccessRights)
        ensures
            r@ == PROCESS_SYNCHRONIZE,
            r.wf(),
    {
        proof {
            assert(0x0010_0000u32 & !(0x0001u32 | 0x0010_0000u32) == 0) by (bit_vector);
        }
        ProcessAccessRights { bits: PROCESS_SYNCHRONIZE }
    }

    /// Both sets of rights together.
    pub fn union(self, other: ProcessAccessRights) -> (r: ProcessAccessRights)
        ensures
            r@ == self@ | other@,
            self.wf() && other.wf() ==> r.wf(),
    {
        proof {
            let a = self.bits;
            let b = other.bits;
            assert((a & !(0x0001u32 | 0x0010_0000u32) == 0 && b & !(0x0001u32 | 0x0010_0000u32)
                == 0) ==> ((a | b) & !(0x0001u32 | 0x0010_0000u32) == 0)) by (bit_vector);
        }
        ProcessAccessRights { bits: self.bits | other.bits }
    }

    /// The raw bits handed to the open call.
    pub fn bits(&self) -> (r: u32)
        ensures
            r == self@,
    {
        self.bits
    }
}

/// An owned handle to a process, opened with some access rights.
#[derive(Debug)]
pub struct Process {
    handle: Handle,
}

impl View for Process {
    type V = usize;

    closed spec fn view(&self) -> usize {
        self.handle@
    }
}

impl Process {
    /// A live process wraps a non-null handle.
    pub open spec fn wf(&self) -> bool {
        self@ != 0
    }

    /// Take ownership of what the process-opening call returned: a
    /// null handle reports failure with the last error, anything else
    /// is an owned process handle.
    pub fn open(raw: usize, last_error: u32) -> (r: Result<Process, OsError>)
        ensures
            raw == 0 <==> r is Err,
            r matches Err(e) ==> e == (OsError { code: last_error }),
            r matches Ok(p) ==> p@ == raw && p.wf(),
    {
        if raw == 0 {
            Err(OsError { code: last_error })
        } else {
            Ok(Process { handle: Handle::from_raw(raw) })
        }
    }

    /// The underlying raw handle word.
    pub fn as_raw(&self) -> (r: usize)
        ensures
            r == self@,
    {
        self.handle.as_raw()
    }

    /// Account for a terminate call's outcome: a zero return reports
    /// failure with the last error. Requires the terminate right on
    /// the call itself.
    pub fn terminate(&self, succeeded: bool, last_error: u32) -> (r: Result<(), OsError>)
        ensures
            succeeded <==> r is Ok,
            r matches Err(e) ==> e == (OsError { code: last_error }),
    {
        if succeeded {
            Ok(())
        } else {
            Err(OsError { code: last_error })
        }
    }

    /// Account for a wait call's outcome. The wait blocks for up to
    /// the given interval (zero polls, the maximum waits
    /// indefinitely); only the failure return reports an error, a
    /// timeout does not.
    pub fn wait(&self, ret: u32, last_error: u32) -> (r: Result<(), OsError>)
        ensures
            ret == WAIT_FAILED <==> r is Err,
            r matches Err(e) ==> e == (OsError { code: last_error }),
    {
        if ret == WAIT_FAILED {
            Err(OsError { code: last_error })
        } else {
            Ok(())
        }
    }

    /// Consume this value, accounting for the one release call made
    /// on its handle. On failure the still owned, still usable value
    /// comes back beside the error.
    pub fn close(self, succeeded: bool, last_error: u32) -> (r: Result<(), (Process, OsError)>)
        ensures
            succeeded <==> r is Ok,
            r matches Err(p) ==> p.0 == self && p.1 == (OsError { code: last_error }),
    {
        match self.handle.close(succeeded, last_error) {
            Ok(()) => Ok(()),
            Err((handle, err)) => Err((Process { handle }, err)),
        }
    }
}

} // verus!
