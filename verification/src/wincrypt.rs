//! An owned byte blob in the foreign call layout, and the decryption
//! decision.

use crate::winbase::LocalWideString;
use crate::winerror::OsError;
use vstd::prelude::*;

verus! {

/// An owned byte buffer in the layout the cryptographic calls use: a
/// 32-bit byte count beside the data pointer, the buffer owned by the
/// local heap allocator.
#[derive(Debug)]
pub struct DataBlob {
    bytes: Vec<u8>,
}

impl View for DataBlob {
    type V = Seq<u8>;

    closed spec fn view(&self) -> Seq<u8> {
        self.bytes@
    }
}

impl DataBlob {
    /// The byte count fits the layout's 32-bit size field.
    pub open spec fn wf(&self) -> bool {
        self@.len() <= u32::MAX
    }

    /// Allocate a blob holding a copy of `data`. The byte count must
    /// fit the 32-bit size field; the panicking conversion of the
    /// count is excluded here.
    pub fn from_slice(data: &[u8]) -> (r: DataBlob)
        requires
            data@.len() <= u32::MAX,
        ensures
            r@ == data@,
            r.wf(),
    {
        DataBlob { bytes: vstd::slice::slice_to_vec(data) }
    }

    /// The byte count.
    pub fn len(&self) -> (r: usize)
        ensures
            r == self@.len(),
    {
        self.bytes.len()
    }

    /// True when the blob holds no bytes.
    pub fn is_empty(&self) -> (r: bool)
        ensures
            r == (self@.len() == 0),
    {
        self.len() == 0
    }

    /// The bytes.
    pub fn as_slice(&self) -> (r: &[u8])
        ensures
            r@ == self@,
    {
        self.bytes.as_slice()
    }

    /// Consume this value, accounting for the one release call made
    /// on its buffer. On failure the still owned value comes back
    /// beside the error.
    pub fn destroy(self, succeeded: bool, last_error: u32) -> (r: Result<(), (DataBlob, OsError)>)
        ensures
            succeeded <==> r is Ok,
            r matches Err(p) ==> p.0 == self && p.1 == (OsError { code: last_error }),
    {
        if succeeded {
            Ok(())
        } else {
            Err((self, OsError { code: last_error }))
        }
    }
}

/// What a successful decryption yields: the decrypted bytes, and the
/// description the data was protected with, if any.
#[derive(Debug)]
pub struct DecryptedData {
    /// The decrypted data.
    pub decrypted: DataBlob,
    /// The description of the decrypted data.
    pub description: Option<LocalWideString>,
}

/// The decryption call's outcome, reduced to owned values.
///
/// `decrypted` and `description` are the buffers the call filled and
/// allocated; a false return reports the last error, and any
/// description buffer handed out on failure is released rather than
/// kept. On success both buffers are taken over, each bound to its
/// matching deallocator.
pub fn crypt_unprotect_data(
    succeeded: bool,
    last_error: u32,
    decrypted: Vec<u8>,
    description: Option<Vec<u16>>,
) -> (r: Result<DecryptedData, OsError>)
    requires
        decrypted@.len() <= u32::MAX,
        description matches Some(d) ==> d@.contains(0),
    ensures
        succeeded <==> r is Ok,
        r matches Err(e) ==> e == (OsError { code: last_error }),
        r matches Ok(d) ==> {
            &&& d.decrypted@ == decrypted@
            &&& (description is None <==> d.description is None)
            &&& (d.description matches Some(s) ==> description matches Some(units) && s@ == units@)
        },
{
    let description = match description {
        Some(units) => Some(LocalWideString::from_raw(units)),
        None => None,
    };
    if !succeeded {
        return Err(OsError { code: last_error });
    }
    Ok(DecryptedData { decrypted: DataBlob { bytes: decrypted }, description })
}

} // verus!
