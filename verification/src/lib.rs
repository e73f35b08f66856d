//! A safety layer for manually managed operating-system resources:
//! opaque resource handles with fallible, recoverable release, and
//! foreign-allocated wide-character strings in two self-describing
//! encodings (NUL-terminated, and length-prefixed with the element
//! count stored just before the data).
//!
//! The foreign calls themselves (open, release, format, decrypt) run
//! outside this library; each call's outcome enters as plain values —
//! a raw handle word, a success flag, a last-error code, a returned
//! buffer — and the decision and ownership logic applied to every such
//! outcome is what this library verifies.

pub mod handleapi;
pub mod libloaderapi;
pub mod objbase;
pub mod oleauto;
pub mod processthreadsapi;
pub mod shlobj;
pub mod tlhelp32;
pub mod wide;
pub mod winbase;
pub mod wincrypt;
pub mod winerror;
