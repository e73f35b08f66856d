//! A NUL-terminated wide string owned by the task-memory allocator,
//! its code-unit iterator, and the runtime-initialization decision.

use crate::wide::{encode_utf16, encode_utf16_str, lemma_nul_scan_len, nul_scan_len, scan_nul};
use crate::winerror::{
    OsError, CLASS_E_NOAGGREGATION, CO_E_NOTINITIALIZED, REGDB_E_CLASSNOTREG,
};
use vstd::prelude::*;
use vstd::slice::slice_subrange;

verus! {

/// The runtime-initialization call's outcome: a failed status code is
/// reported as an error carrying that code, anything else is success.
pub fn init_mta_com_runtime(code: i32) -> (r: Result<(), OsError>)
    ensures
        code < 0 <==> r is Err,
        r matches Err(e) ==> e == (OsError { code: code as u32 }),
{
    if code < 0 {
        Err(OsError { code: code as u32 })
    } else {
        Ok(())
    }
}

/// Why an instantiation failed: the few well-known codes get a named
/// meaning, every other code is kept as it came.
#[derive(Clone, Copy, Debug, PartialEq, Eq, Structural)]
pub enum CreateInstanceError {
    /// The requested class is not registered.
    ClassNotRegistered,
    /// The requested class cannot be aggregated.
    CannotAggregate,
    /// The runtime was not initialized before use.
    RuntimeNotInitialized,
    /// Any other failure, as its raw code.
    Other(u32),
}

/// The named meaning of a failed instantiation status code.
pub open spec fn create_instance_error_of(code: u32) -> CreateInstanceError {
    if code == REGDB_E_CLASSNOTREG {
        CreateInstanceError::ClassNotRegistered
    } else if code == CLASS_E_NOAGGREGATION {
        CreateInstanceError::CannotAggregate
    } else if code == CO_E_NOTINITIALIZED {
        CreateInstanceError::RuntimeNotInitialized
    } else {
        CreateInstanceError::Other(code)
    }
}

/// The instantiation call's outcome: a failed status code maps to its
/// named meaning, and success hands through the opaque instance word
/// the call produced. The returned interface is the caller's to
/// manage.
pub fn create_instance(code: i32, instance: usize) -> (r: Result<usize, CreateInstanceError>)
    ensures
        code < 0 <==> r is Err,
        r matches Ok(p) ==> p == instance,
        r matches Err(e) ==> e == create_instance_error_of(code as u32),
{
    if code >= 0 {
        return Ok(instance);
    }
    let raw = code as u32;
    if raw == REGDB_E_CLASSNOTREG {
        Err(CreateInstanceError::ClassNotRegistered)
    } else if raw == CLASS_E_NOAGGREGATION {
        Err(CreateInstanceError::CannotAggregate)
    } else if raw == CO_E_NOTINITIALIZED {
        Err(CreateInstanceError::RuntimeNotInitialized)
    } else {
        Err(CreateInstanceError::Other(raw))
    }
}

/// A wide string owned by the task-memory allocator and freed by its
/// matching release call, terminated by a zero code unit.
///
/// The length is never stored: every length query rescans for the
/// terminator. Code units past the first zero cannot be reached.
#[derive(Debug)]
pub struct CoTaskMemWideString {
    units: Vec<u16>,
}

impl View for CoTaskMemWideString {
    type V = Seq<u16>;

    closed spec fn view(&self) -> Seq<u16> {
        self.units@
    }
}

impl CoTaskMemWideString {
    /// A valid buffer holds a terminator somewhere.
    pub open spec fn wf(&self) -> bool {
        self@.contains(0)
    }

    /// The code units before the first terminator.
    pub open spec fn content(&self) -> Seq<u16> {
        self@.take(nul_scan_len(self@) as int)
    }

    /// Take ownership of a buffer produced by the task-memory
    /// allocator. The buffer must hold its terminator.
    pub fn from_raw(units: Vec<u16>) -> (r: CoTaskMemWideString)
        requires
            units@.contains(0),
        ensures
            r@ == units@,
            r.wf(),
    {
        CoTaskMemWideString { units }
    }

    /// Allocate a new string holding the encoding of `text` followed
    /// by the terminator. `None` is reserved for allocation failure,
    /// which this allocation model never reports.
    pub fn new(text: &str) -> (r: Option<CoTaskMemWideString>)
        ensures
            r is Some,
            r matches Some(s) ==> s@ == encode_utf16(text@).push(0) && s.wf(),
    {
        let mut units = encode_utf16_str(text);
        units.push(0);
        proof {
            assert(units@[units@.len() - 1] == 0);
        }
        Some(CoTaskMemWideString { units })
    }

    /// The number of code units before the terminator, recomputed by
    /// scanning on every call.
    pub fn len(&self) -> (r: usize)
        ensures
            r == nul_scan_len(self@),
    {
        scan_nul(self.units.as_slice())
    }

    /// True when no code unit precedes the terminator. Scans.
    pub fn is_empty(&self) -> (r: bool)
        ensures
            r == (nul_scan_len(self@) == 0),
    {
        self.len() == 0
    }

    /// The code units before the terminator. Scans.
    pub fn as_slice(&self) -> (r: &[u16])
        ensures
            r@ == self.content(),
    {
        let n = scan_nul(self.units.as_slice());
        proof {
            lemma_nul_scan_len(self@);
        }
        slice_subrange(self.units.as_slice(), 0, n)
    }

    /// An iterator over the code units before the terminator.
    pub fn iter(&self) -> (r: Iter<'_>)
        ensures
            r.data() == self@,
            r.offset() == 0,
    {
        Iter::new(self)
    }

    /// Consume this value, accounting for the one release call made on
    /// its buffer. On failure the still owned value comes back beside
    /// the error.
    pub fn destroy(self, succeeded: bool, last_error: u32) -> (r: Result<
        (),
        (CoTaskMemWideString, OsError),
    >)
        ensures
            succeeded <==> r is Ok,
            r matches Err(p) ==> p.0 == self && p.1 == (OsError { code: last_error }),
    {
        if succeeded {
            Ok(())
        } else {
            Err((self, OsError { code: last_error }))
        }
    }
}

/// A freshly allocated string of text with no embedded zero unit
/// reports the text's full unit count, and its content is exactly the
/// text's encoding: allocation and the rescanning length agree.
pub proof fn lemma_new_len_round_trip(s: Seq<char>, c: CoTaskMemWideString)
    requires
        c@ == encode_utf16(s).push(0),
        !encode_utf16(s).contains(0),
    ensures
        nul_scan_len(c@) == encode_utf16(s).len(),
        c.content() == encode_utf16(s),
{
    crate::wide::lemma_nul_scan_push(encode_utf16(s));
    assert(c.content() =~= encode_utf16(s));
}

/// Rescanning is idempotent: two length computations on one
/// NUL-terminated string agree, because each equals the first-NUL
/// index of the same buffer.
pub proof fn lemma_len_idempotent(s: CoTaskMemWideString, r1: usize, r2: usize)
    requires
        r1 == nul_scan_len(s@),
        r2 == nul_scan_len(s@),
    ensures
        r1 == r2,
{
}

/// A cursor over the code units of a [`CoTaskMemWideString`], stopping
/// at the first terminator.
pub struct Iter<'a> {
    data: &'a CoTaskMemWideString,
    offset: usize,
}

impl<'a> Iter<'a> {
    /// The buffer being walked.
    pub closed spec fn data(&self) -> Seq<u16> {
        self.data@
    }

    /// How many code units have been yielded.
    pub closed spec fn offset(&self) -> nat {
        self.offset as nat
    }

    /// A cursor is valid while it has not passed the first terminator
    /// of a terminated buffer.
    pub open spec fn wf(&self) -> bool {
        self.data().contains(0) && self.offset() <= nul_scan_len(self.data())
    }

    /// Start a cursor at the first code unit.
    pub fn new(data: &'a CoTaskMemWideString) -> (r: Iter<'a>)
        ensures
            r.data() == data@,
            r.offset() == 0,
            data.wf() ==> r.wf(),
    {
        Iter { data, offset: 0 }
    }

    /// The code unit under the cursor.
    pub fn current(&self) -> (r: u16)
        requires
            self.offset() < self.data().len(),
        ensures
            r == self.data()[self.offset() as int],
    {
        *vstd::slice::slice_index_get(self.data.units.as_slice(), self.offset)
    }

    /// True when the cursor stands on the terminator.
    pub fn current_is_nul(&self) -> (r: bool)
        requires
            self.offset() < self.data().len(),
        ensures
            r == (self.data()[self.offset() as int] == 0),
    {
        self.current() == 0
    }

    /// The next code unit before the terminator, or `None` at and
    /// after it — once exhausted, every later call yields `None`.
    pub fn next(&mut self) -> (r: Option<u16>)
        requires
            old(self).wf(),
        ensures
            final(self).wf(),
            final(self).data() == old(self).data(),
            old(self).offset() < nul_scan_len(old(self).data()) ==> r == Some(
                old(self).data()[old(self).offset() as int],
            ) && final(self).offset() == old(self).offset() + 1,
            old(self).offset() == nul_scan_len(old(self).data()) ==> r is None && final(self)
                .offset() == old(self).offset(),
    {
        proof {
            lemma_nul_scan_len(self.data@);
        }
        if self.current_is_nul() {
            return None;
        }
        let ret = self.current();
        let n = self.data.units.len();
        proof {
            assert(self.offset() < nul_scan_len(self.data@));
            assert(self.offset < n);
        }
        self.offset = self.offset + 1;
        Some(ret)
    }
}

} // verus!
