//! An owned enumeration snapshot and the iterator over its process
//! entries.

use crate::handleapi::Handle;
use crate::wide::{nul_scan_len, scan_nul};
use crate::winerror::OsError;
use vstd::prelude::*;
use vstd::slice::slice_subrange;

verus! {

/// Capture heap lists in the snapshot.
pub const TH32CS_SNAPHEAPLIST: u32 = 0x1;

/// Capture processes in the snapshot.
pub const TH32CS_SNAPPROCESS: u32 = 0x2;

/// Capture threads in the snapshot.
pub const TH32CS_SNAPTHREAD: u32 = 0x4;

/// Capture modules in the snapshot.
pub const TH32CS_SNAPMODULE: u32 = 0x8;

/// Capture everything.
pub const TH32CS_SNAPALL: u32 = 0xF;

/// The handle word returned by the snapshot call on failure.
pub const INVALID_HANDLE_VALUE: usize = usize::MAX;

/// The flags to pass when creating a new [`Snapshot`], encoded as a
/// bit-set at the call boundary.
#[derive(Clone, Copy, Debug, PartialEq, Eq, Structural)]
pub struct SnapshotFlags {
    bits: u32,
}

impl View for SnapshotFlags {
    type V = u32;

    closed spec fn view(&self) -> u32 {
        self.bits
    }
}

impl SnapshotFlags {
    /// Only the named flags may be set.
    pub open spec fn wf(&self) -> bool {
        self@ & !TH32CS_SNAPALL == 0
    }

    /// Capture everything.
    pub fn snap_all() -> (r: SnapshotFlags)
        ensures
            r@ == TH32CS_SNAPALL,
            r.wf(),
    {
        proof {
            assert(0xFu32 & !0xFu32 == 0) by (bit_vector);
        }
        SnapshotFlags { bits: TH32CS_SNAPALL }
    }

    /// The raw bits handed to the snapshot call.
    pub fn bits(&self) -> (r: u32)
        ensures
            r == self@,
    {
        self.bits
    }
}

/// An owned snapshot of process and heap information.
#[derive(Debug)]
pub struct Snapshot {
    handle: Handle,
}

impl View for Snapshot {
    type V = usize;

    closed spec fn view(&self) -> usize {
        self.handle@
    }
}

impl Snapshot {
    /// A live snapshot wraps a valid handle.
    pub open spec fn wf(&self) -> bool {
        self@ != 0 && self@ != INVALID_HANDLE_VALUE
    }

    /// Take ownership of what the snapshot call returned: the invalid
    /// sentinel reports failure with the last error, anything else is
    /// an owned snapshot. The call never returns a null handle.
    pub fn new(raw: usize, last_error: u32) -> (r: Result<Snapshot, OsError>)
        requires
            raw != 0,
        ensures
            raw == INVALID_HANDLE_VALUE <==> r is Err,
            r matches Err(e) ==> e == (OsError { code: last_error }),
            r matches Ok(s) ==> s@ == raw && s.wf(),
    {
        if raw == INVALID_HANDLE_VALUE {
            Err(OsError { code: last_error })
        } else {
            Ok(Snapshot { handle: Handle::from_raw(raw) })
        }
    }

    /// The underlying raw handle word.
    pub fn as_raw(&self) -> (r: usize)
        ensures
            r == self@,
    {
        self.handle.as_raw()
    }

    /// Iterate over the process entries of this snapshot.
    ///
    /// `entries` is what the enumeration calls surrender, first to
    /// last. The snapshot is borrowed exclusively while the entries
    /// are gathered, so no other operation can interleave with the
    /// enumeration.
    pub fn iter_processes(&mut self, entries: Vec<ProcessEntry>) -> (r: ProcessIter)
        ensures
            *final(self) == *old(self),
            r@ == entries@,
    {
        ProcessIter::from_snapshot(self, entries)
    }

    /// Consume this value, accounting for the one release call made
    /// on its handle. On failure the still owned value comes back
    /// beside the error.
    pub fn close(self, succeeded: bool, last_error: u32) -> (r: Result<(), (Snapshot, OsError)>)
        ensures
            succeeded <==> r is Ok,
            r matches Err(p) ==> p.0 == self && p.1 == (OsError { code: last_error }),
    {
        match self.handle.close(succeeded, last_error) {
            Ok(()) => Ok(()),
            Err((handle, err)) => Err((Snapshot { handle }, err)),
        }
    }
}

/// One process entry, copied out of the enumeration cursor: a plain,
/// self-contained snapshot that stays valid after the iterator moves
/// on.
#[derive(Debug)]
pub struct ProcessEntry {
    /// The process identifier.
    pub pid: u32,
    /// The number of execution threads started by the process.
    pub num_threads: u32,
    /// The base priority of threads created by the process.
    pub thread_base_priority: i32,
    /// The executable name field as the enumeration filled it: a
    /// fixed-size wide buffer, NUL-terminated unless full.
    pub exe_file: Vec<u16>,
}

impl ProcessEntry {
    /// Gather one entry from the fields the enumeration cursor holds.
    pub fn new(pid: u32, num_threads: u32, thread_base_priority: i32, exe_file: Vec<u16>) -> (r:
        ProcessEntry)
        ensures
            r.pid == pid,
            r.num_threads == num_threads,
            r.thread_base_priority == thread_base_priority,
            r.exe_file@ == exe_file@,
    {
        ProcessEntry { pid, num_threads, thread_base_priority, exe_file }
    }

    /// The process identifier.
    pub fn pid(&self) -> (r: u32)
        ensures
            r == self.pid,
    {
        self.pid
    }

    /// The number of execution threads started by the process.
    pub fn num_threads(&self) -> (r: u32)
        ensures
            r == self.num_threads,
    {
        self.num_threads
    }

    /// The base priority of threads created by the process.
    pub fn thread_base_priority(&self) -> (r: i32)
        ensures
            r == self.thread_base_priority,
    {
        self.thread_base_priority
    }

    /// The executable name: the buffer up to its first NUL, or the
    /// whole buffer when no NUL occurs. May or may not be valid
    /// UTF-16.
    pub fn exe_name_wide_slice(&self) -> (r: &[u16])
        ensures
            r@ == self.exe_file@.take(nul_scan_len(self.exe_file@) as int),
    {
        let n = scan_nul(self.exe_file.as_slice());
        proof {
            crate::wide::lemma_nul_scan_len(self.exe_file@);
        }
        slice_subrange(self.exe_file.as_slice(), 0, n)
    }

    /// The executable name decoded lossily.
    pub fn exe_name_lossy(&self) -> (r: String)
        ensures
            r@ == crate::wide::decode_utf16_lossy(
                self.exe_file@.take(nul_scan_len(self.exe_file@) as int),
            ),
    {
        crate::wide::decode_utf16_lossy_exec(self.exe_name_wide_slice())
    }
}

/// An iterator over the process entries of a [`Snapshot`].
///
/// Entries come out first to last, each an owned snapshot; once none
/// remain, every later call yields `None` — there is no way back to
/// the start, a fresh iterator must be requested from the snapshot.
pub struct ProcessIter {
    remaining: Vec<ProcessEntry>,
}

impl View for ProcessIter {
    type V = Seq<ProcessEntry>;

    closed spec fn view(&self) -> Seq<ProcessEntry> {
        self.remaining@
    }
}

impl ProcessIter {
    /// Start an iterator over the entries the enumeration calls
    /// surrendered for `snapshot`, while it was exclusively borrowed.
    pub fn from_snapshot(snapshot: &mut Snapshot, entries: Vec<ProcessEntry>) -> (r: ProcessIter)
        ensures
            *final(snapshot) == *old(snapshot),
            r@ == entries@,
    {
        ProcessIter { remaining: entries }
    }

    /// The next entry, or `None` once the enumeration is exhausted —
    /// permanently.
    pub fn next(&mut self) -> (r: Option<ProcessEntry>)
        ensures
            old(self)@.len() > 0 ==> r == Some(old(self)@[0]) && final(self)@ == old(
                self,
            )@.drop_first(),
            old(self)@.len() == 0 ==> r is None && final(self)@ == old(self)@,
    {
        if self.remaining.len() > 0 {
            let entry = self.remaining.remove(0);
            proof {
                assert(self.remaining@ =~= old(self)@.drop_first());
            }
            Some(entry)
        } else {
            None
        }
    }
}

} // verus!
