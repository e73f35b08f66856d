//! Known-folder lookups: the identifiers handed to the lookup calls
//! and the decisions applied to their outcomes.

use crate::objbase::CoTaskMemWideString;
use crate::wide::{lemma_nul_scan_len, nul_scan_len, scan_nul};
use crate::winerror::OsError;
use vstd::prelude::*;
use vstd::slice::slice_subrange;

verus! {

/// The folder identifier for the legacy lookup: the desktop.
pub const CSIDL_DESKTOP: i32 = 0;

/// A 128-bit globally unique identifier, in its standard four-field
/// layout.
#[derive(Clone, Copy, Debug, PartialEq, Eq, Hash)]
pub struct Guid {
    /// The first 32 bits.
    pub data1: u32,
    /// The next 16 bits.
    pub data2: u16,
    /// The next 16 bits.
    pub data3: u16,
    /// The final 64 bits, byte for byte.
    pub data4: [u8; 8],
}

/// Known folder identifiers.
#[derive(Clone, Copy, Debug, PartialEq, Eq, Hash, Structural)]
pub enum FolderId {
    /// The current user's desktop.
    Desktop,
    /// The data repository for local, non-roaming applications.
    LocalAppData,
}

impl FolderId {
    /// The globally unique identifier handed to the lookup call.
    pub fn guid(&self) -> (r: Guid)
        ensures
            *self is Desktop ==> r.data1 == 0xB4BFCC3A && r.data2 == 0xDB2C && r.data3 == 0x424C
                && r.data4@ == seq![0xB0u8, 0x29, 0x7F, 0xE9, 0x9A, 0x87, 0xC6, 0x41],
            *self is LocalAppData ==> r.data1 == 0xF1B32785 && r.data2 == 0x6FBA && r.data3
                == 0x4FCF && r.data4@ == seq![0x9Du8, 0x55, 0x7B, 0x8E, 0x7F, 0x15, 0x70, 0x91],
    {
        match self {
            FolderId::Desktop => Guid {
                data1: 0xB4BFCC3A,
                data2: 0xDB2C,
                data3: 0x424C,
                data4: [0xB0, 0x29, 0x7F, 0xE9, 0x9A, 0x87, 0xC6, 0x41],
            },
            FolderId::LocalAppData => Guid {
                data1: 0xF1B32785,
                data2: 0x6FBA,
                data3: 0x4FCF,
                data4: [0x9D, 0x55, 0x7B, 0x8E, 0x7F, 0x15, 0x70, 0x91],
            },
        }
    }
}

/// Folder locations for the legacy lookup.
#[derive(Clone, Copy, Debug, PartialEq, Eq, Structural)]
pub enum ConstantSpecialItemIdList {
    /// The desktop.
    Desktop,
}

impl ConstantSpecialItemIdList {
    /// The identifier handed to the legacy lookup call.
    pub fn csidl(&self) -> (r: i32)
        ensures
            *self is Desktop ==> r == CSIDL_DESKTOP,
    {
        match self {
            ConstantSpecialItemIdList::Desktop => CSIDL_DESKTOP,
        }
    }
}

/// The known-folder lookup's outcome, reduced to an owned path
/// string.
///
/// `status` is the code the lookup returned and `path` the buffer it
/// allocated (`None` when null). Any status but plain success is
/// reported as an error carrying that code; on success the call
/// guarantees a buffer, which is taken over as an owned string bound
/// to the task-memory deallocator.
pub fn get_known_folder_path(status: i32, path: Option<Vec<u16>>) -> (r: Result<
    CoTaskMemWideString,
    OsError,
>)
    requires
        path matches Some(p) ==> p@.contains(0),
        status == 0 ==> path is Some,
    ensures
        status != 0 <==> r is Err,
        r matches Err(e) ==> e == (OsError { code: status as u32 }),
        r matches Ok(s) ==> path matches Some(p) && s@ == p@,
{
    if status != 0 {
        return Err(OsError { code: status as u32 });
    }
    Ok(CoTaskMemWideString::from_raw(path.unwrap()))
}

/// The legacy folder lookup's outcome, reduced to the path's code
/// units.
///
/// `succeeded` is the call's boolean return and `buffer` the wide
/// buffer it filled, NUL-terminated on success. Failure yields
/// `None`; success yields the buffer up to its first NUL.
pub fn get_special_folder_path(succeeded: bool, buffer: &[u16]) -> (r: Option<Vec<u16>>)
    ensures
        succeeded <==> r is Some,
        r matches Some(p) ==> p@ == buffer@.take(nul_scan_len(buffer@) as int),
{
    if !succeeded {
        return None;
    }
    let n = scan_nul(buffer);
    proof {
        lemma_nul_scan_len(buffer@);
    }
    let prefix = slice_subrange(buffer, 0, n);
    Some(vstd::slice::slice_to_vec(prefix))
}

} // verus!
