//! Error values shared across the crate: the last-error code recorded
//! by the operating system after a failed call, and status codes with
//! a message lookup.

use crate::wide::nul_scan_len;
use crate::winbase::LocalWideString;
use vstd::prelude::*;

verus! {

/// The thread-local error code recorded by the operating system after
/// a failed call, consulted immediately after detecting failure.
#[derive(Clone, Copy, Debug, PartialEq, Eq, Structural)]
pub struct OsError {
    /// The raw error code.
    pub code: u32,
}

/// The status code reported as plain success.
pub const S_OK: i32 = 0;

/// The status code reported as success with a negative answer.
pub const S_FALSE: i32 = 1;

/// The caller asked for a concurrency model that differs from the one
/// already initialized.
pub const RPC_E_CHANGED_MODE: u32 = 0x8001_0106;

/// The runtime was not initialized before use.
pub const CO_E_NOTINITIALIZED: u32 = 0x8004_01F0;

/// The requested class is not registered.
pub const REGDB_E_CLASSNOTREG: u32 = 0x8004_0154;

/// The requested class cannot be aggregated.
pub const CLASS_E_NOAGGREGATION: u32 = 0x8004_0110;

/// The option flags handed to the message-formatting call: allocate
/// the buffer, read definitions from the system tables, ignore insert
/// sequences, and, when a module is supplied, read its tables too.
pub const FORMAT_MESSAGE_ALLOCATE_BUFFER: u32 = 0x100;

/// Read message definitions from a caller-supplied module.
pub const FORMAT_MESSAGE_FROM_HMODULE: u32 = 0x800;

/// Read message definitions from the system tables.
pub const FORMAT_MESSAGE_FROM_SYSTEM: u32 = 0x1000;

/// Do not process insert sequences in the message definition.
pub const FORMAT_MESSAGE_IGNORE_INSERTS: u32 = 0x200;

/// A wrapper for a status/error code in the operating system's
/// 32-bit encoding, where the high bit marks failure.
#[derive(Clone, Copy, Debug, PartialEq, Eq, Structural)]
pub struct HResult(pub u32);

/// A status code counts as failed exactly when its high (severity)
/// bit is set, that is, when it is negative as a signed value.
pub open spec fn hresult_failed(code: u32) -> bool {
    code >= 0x8000_0000
}

impl HResult {
    /// Wrap a code given in the unsigned form.
    pub fn from_u32(code: u32) -> (r: HResult)
        ensures
            r.0 == code,
    {
        HResult(code)
    }

    /// Wrap a code given in the signed form; the bits are kept as they
    /// are.
    pub fn from_i32(code: i32) -> (r: HResult)
        ensures
            r.0 == code as u32,
    {
        HResult(code as u32)
    }

    /// True when this code reports a failure.
    pub fn failed(&self) -> (r: bool)
        ensures
            r == hresult_failed(self.0),
    {
        self.0 >= 0x8000_0000
    }

    /// The code as a last-error value.
    pub fn to_os_error(&self) -> (r: OsError)
        ensures
            r.code == self.0,
    {
        OsError { code: self.0 }
    }

    /// The flags for a message lookup: a lookup always allocates its
    /// buffer, reads the system tables and ignores inserts; one that
    /// was given a module reads that module's tables too.
    pub fn message_flags(from_module: bool) -> (r: u32)
        ensures
            !from_module ==> r == 0x1300,
            from_module ==> r == 0x1B00,
    {
        proof {
            assert(0x100u32 | 0x1000u32 | 0x200u32 == 0x1300u32) by (bit_vector);
            assert(0x1300u32 | 0x800u32 == 0x1B00u32) by (bit_vector);
        }
        let base = FORMAT_MESSAGE_ALLOCATE_BUFFER | FORMAT_MESSAGE_FROM_SYSTEM
            | FORMAT_MESSAGE_IGNORE_INSERTS;
        if from_module {
            base | FORMAT_MESSAGE_FROM_HMODULE
        } else {
            base
        }
    }

    /// The message for this code, from the outcome of a lookup in the
    /// system's own message tables.
    ///
    /// `written` and `buffer` are what the message-formatting call
    /// returned: the number of characters written, and the buffer it
    /// allocated (`None` when it allocated none). A zero count or a
    /// missing buffer reports the last error; otherwise the buffer is
    /// taken over as an owned string bound to the local deallocator.
    pub fn message(&self, written: u32, buffer: Option<Vec<u16>>, last_error: u32) -> (r: Result<
        LocalWideString,
        OsError,
    >)
        requires
            buffer matches Some(b) ==> b@.contains(0),
        ensures
            (written == 0 || buffer is None) <==> r is Err,
            r matches Err(e) ==> e == (OsError { code: last_error }),
            r matches Ok(s) ==> buffer matches Some(b) && s@ == b@,
    {
        self.message_with_hmodule(None, written, buffer, last_error)
    }

    /// The message for this code, from the outcome of a lookup that
    /// also consulted the message tables of `module`.
    ///
    /// The module must already be loaded when the lookup is made; the
    /// decision applied to the outcome is the same as for [`Self::message`].
    pub fn message_with_hmodule(
        &self,
        module: Option<&crate::libloaderapi::HModule>,
        written: u32,
        buffer: Option<Vec<u16>>,
        last_error: u32,
    ) -> (r: Result<LocalWideString, OsError>)
        requires
            buffer matches Some(b) ==> b@.contains(0),
        ensures
            (written == 0 || buffer is None) <==> r is Err,
            r matches Err(e) ==> e == (OsError { code: last_error }),
            r matches Ok(s) ==> buffer matches Some(b) && s@ == b@,
    {
        match buffer {
            Some(units) => {
                if written == 0 {
                    Err(OsError { code: last_error })
                } else {
                    Ok(LocalWideString::from_raw(units))
                }
            },
            None => Err(OsError { code: last_error }),
        }
    }
}

} // verus!
