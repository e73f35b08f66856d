//! Automation-layer string types.

pub mod bstr;
