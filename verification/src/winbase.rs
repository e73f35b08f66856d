//! A NUL-terminated wide string owned by the local heap allocator,
//! and the user-name lookup decision.

use crate::wide::{
    decode_utf16, decode_utf16_lossy, decode_utf16_lossy_exec, decode_utf16_strict,
    decode_utf16_units, is_valid_utf16, lemma_nul_scan_len, nul_scan_len, scan_nul, FromUtf16Error,
    Utf16DecodeError,
};
use crate::winerror::OsError;
use vstd::prelude::*;
use vstd::slice::slice_subrange;

verus! {

/// The user-name lookup's outcome, reduced to an owned name.
///
/// `buffer` is the wide buffer the call filled and `filled` the
/// character count it reported, terminator included. On failure the
/// last error is reported; on success the name is the filled prefix
/// without its terminator.
pub fn get_user_name(succeeded: bool, last_error: u32, buffer: &[u16], filled: u32) -> (r: Result<
    Vec<u16>,
    OsError,
>)
    requires
        succeeded ==> 1 <= filled <= buffer@.len(),
    ensures
        succeeded <==> r is Ok,
        r matches Err(e) ==> e == (OsError { code: last_error }),
        r matches Ok(name) ==> name@ == buffer@.take(filled - 1),
{
    if !succeeded {
        return Err(OsError { code: last_error });
    }
    let len = (filled - 1) as usize;
    let name = slice_subrange(buffer, 0, len);
    proof {
        assert(name@ =~= buffer@.take(filled - 1));
    }
    Ok(vstd::slice::slice_to_vec(name))
}

/// A wide string owned by the local heap allocator and freed by its
/// matching release call, terminated by a zero code unit.
///
/// The length is never stored: every length or slice query rescans
/// for the terminator, so callers should cache the result if reused.
/// Code units past the first zero cannot be reached.
#[derive(Debug)]
pub struct LocalWideString {
    units: Vec<u16>,
}

impl View for LocalWideString {
    type V = Seq<u16>;

    closed spec fn view(&self) -> Seq<u16> {
        self.units@
    }
}

impl LocalWideString {
    /// A valid buffer holds a terminator somewhere.
    pub open spec fn wf(&self) -> bool {
        self@.contains(0)
    }

    /// The code units before the first terminator.
    pub open spec fn content(&self) -> Seq<u16> {
        self@.take(nul_scan_len(self@) as int)
    }

    /// Take ownership of a buffer produced by the local heap
    /// allocator. The buffer must hold its terminator.
    pub fn from_raw(units: Vec<u16>) -> (r: LocalWideString)
        requires
            units@.contains(0),
        ensures
            r@ == units@,
            r.wf(),
    {
        LocalWideString { units }
    }

    /// The number of code units before the terminator, recomputed by
    /// scanning on every call.
    pub fn len(&self) -> (r: usize)
        ensures
            r == nul_scan_len(self@),
    {
        scan_nul(self.units.as_slice())
    }

    /// True when no code unit precedes the terminator. Scans.
    pub fn is_empty(&self) -> (r: bool)
        ensures
            r == (nul_scan_len(self@) == 0),
    {
        self.len() == 0
    }

    /// The code units before the terminator. Scans.
    pub fn as_slice(&self) -> (r: &[u16])
        ensures
            r@ == self.content(),
    {
        let n = scan_nul(self.units.as_slice());
        proof {
            lemma_nul_scan_len(self@);
        }
        slice_subrange(self.units.as_slice(), 0, n)
    }

    /// The content decoded strictly; fails on any unpaired surrogate.
    pub fn to_str(&self) -> (r: Result<String, FromUtf16Error>)
        ensures
            r is Ok <==> is_valid_utf16(self.content()),
            r matches Ok(s) ==> s@ == decode_utf16_lossy(self.content()),
    {
        decode_utf16_strict(self.as_slice())
    }

    /// The content decoded lossily; unpaired surrogates become the
    /// replacement character.
    pub fn to_str_lossy(&self) -> (r: String)
        ensures
            r@ == decode_utf16_lossy(self.content()),
    {
        decode_utf16_lossy_exec(self.as_slice())
    }

    /// The content decoded one character at a time, each unpaired
    /// surrogate reported in place.
    pub fn chars(&self) -> (r: Vec<Result<char, Utf16DecodeError>>)
        ensures
            r@ == decode_utf16(self.content()),
    {
        decode_utf16_units(self.as_slice())
    }

    /// A rendering of this string for display, decoded lossily.
    pub fn display(&self) -> (r: LocalWideStringDisplay)
        ensures
            r@ == decode_utf16_lossy(self.content()),
    {
        LocalWideStringDisplay { rendered: self.to_str_lossy() }
    }

    /// Consume this value, accounting for the one release call made on
    /// its buffer. On failure the still owned value comes back beside
    /// the error; a caller that discards the result accepts a silent
    /// leak, which is the documented behaviour of implicit teardown.
    pub fn destroy(self, succeeded: bool, last_error: u32) -> (r: Result<
        (),
        (LocalWideString, OsError),
    >)
        ensures
            succeeded <==> r is Ok,
            r matches Err(p) ==> p.0 == self && p.1 == (OsError { code: last_error }),
    {
        if succeeded {
            Ok(())
        } else {
            Err((self, OsError { code: last_error }))
        }
    }
}

/// A displayable, lossily decoded snapshot of a [`LocalWideString`].
#[derive(Debug)]
pub struct LocalWideStringDisplay {
    rendered: String,
}

impl View for LocalWideStringDisplay {
    type V = Seq<char>;

    closed spec fn view(&self) -> Seq<char> {
        self.rendered@
    }
}

impl LocalWideStringDisplay {
    /// The rendered text.
    pub fn to_display_string(&self) -> (r: String)
        ensures
            r@ == self@,
    {
        self.rendered.clone()
    }
}

} // verus!
