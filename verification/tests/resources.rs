//! Resource handles, their derived resources, the snapshot iterator,
//! and the remaining boundary decisions.

use winwrap::handleapi::Handle;
use winwrap::libloaderapi::HModule;
use winwrap::objbase::{create_instance, init_mta_com_runtime, CreateInstanceError};
use winwrap::processthreadsapi::{Process, ProcessAccessRights, WAIT_FAILED};
use winwrap::shlobj::{get_known_folder_path, get_special_folder_path, FolderId};
use winwrap::tlhelp32::{ProcessEntry, ProcessIter, Snapshot, SnapshotFlags};
use winwrap::winbase::get_user_name;
use winwrap::wincrypt::{crypt_unprotect_data, DataBlob};
use winwrap::winerror::HResult;

fn wide_z(s: &str) -> Vec<u16> {
    let mut units: Vec<u16> = s.encode_utf16().collect();
    units.push(0);
    units
}

#[test]
fn failed_close_returns_usable_handle() {
    let handle = Handle::from_raw(0x1234);
    let (handle, err) = handle.close(false, 5).unwrap_err();
    assert_eq!(err.code, 5);
    assert_eq!(handle.as_raw(), 0x1234);
    assert!(handle.close(true, 0).is_ok());
}

#[test]
fn handle_raw_round_trip() {
    let handle = Handle::from_raw(0xBEEF);
    assert_eq!(handle.as_raw(), 0xBEEF);
    let raw = handle.into_raw();
    assert_eq!(raw, 0xBEEF);
    let handle = Handle::from_raw(raw);
    assert!(handle.close(true, 0).is_ok());
}

#[test]
fn empty_snapshot_yields_nothing() {
    let mut snapshot = Snapshot::new(0x40, 0).unwrap();
    let mut iter = snapshot.iter_processes(Vec::new());
    assert!(iter.next().is_none());
    assert!(iter.next().is_none());
    assert!(snapshot.close(true, 0).is_ok());
}

#[test]
fn snapshot_iterator_yields_entries_in_order() {
    let entries = vec![
        ProcessEntry::new(4, 1, 8, wide_z("System")),
        ProcessEntry::new(1234, 7, 8, wide_z("calc.exe")),
    ];
    let mut snapshot = Snapshot::new(0x41, 0).unwrap();
    let mut iter = ProcessIter::from_snapshot(&mut snapshot, entries);
    let first = iter.next().unwrap();
    assert_eq!(first.pid(), 4);
    assert_eq!(first.num_threads(), 1);
    assert_eq!(first.thread_base_priority(), 8);
    assert_eq!(first.exe_name_lossy(), "System");
    let second = iter.next().unwrap();
    assert_eq!(second.pid(), 1234);
    // The first entry remains a valid snapshot after the iterator
    // advanced past it.
    assert_eq!(first.pid(), 4);
    assert!(iter.next().is_none());
    assert!(snapshot.close(true, 0).is_ok());
}

#[test]
fn exe_name_stops_at_first_nul() {
    let mut buffer = wide_z("calc.exe");
    buffer.extend_from_slice(&['x' as u16; 4]);
    let entry = ProcessEntry::new(1, 1, 0, buffer);
    assert_eq!(entry.exe_name_wide_slice(), &wide_z("calc.exe")[..8]);
    assert_eq!(entry.exe_name_lossy(), "calc.exe");

    let unterminated = ProcessEntry::new(2, 1, 0, vec!['a' as u16, 'b' as u16]);
    assert_eq!(unterminated.exe_name_lossy(), "ab");
}

#[test]
fn snapshot_creation_decision() {
    assert_eq!(SnapshotFlags::snap_all().bits(), 0xF);
    let err = Snapshot::new(usize::MAX, 6).unwrap_err();
    assert_eq!(err.code, 6);
    let snapshot = Snapshot::new(0x42, 0).unwrap();
    assert_eq!(snapshot.as_raw(), 0x42);
    let (snapshot, err) = snapshot.close(false, 9).unwrap_err();
    assert_eq!(err.code, 9);
    assert!(snapshot.close(true, 0).is_ok());
}

#[test]
fn process_open_terminate_wait_close() {
    assert_eq!(
        ProcessAccessRights::terminate()
            .union(ProcessAccessRights::synchronize())
            .bits(),
        0x0010_0001
    );
    assert_eq!(ProcessAccessRights::empty().bits(), 0);

    let err = Process::open(0, 5).unwrap_err();
    assert_eq!(err.code, 5);

    let process = Process::open(0x99, 0).unwrap();
    assert_eq!(process.as_raw(), 0x99);
    assert!(process.terminate(true, 0).is_ok());
    assert_eq!(process.terminate(false, 7).unwrap_err().code, 7);
    assert!(process.wait(0, 0).is_ok());
    assert_eq!(process.wait(WAIT_FAILED, 3).unwrap_err().code, 3);

    let (process, err) = process.close(false, 11).unwrap_err();
    assert_eq!(err.code, 11);
    assert!(process.close(true, 0).is_ok());
}

#[test]
fn hmodule_load_and_destroy() {
    let err = HModule::load(0, 126).unwrap_err();
    assert_eq!(err.code, 126);
    let module = HModule::load(0x7000, 0).unwrap();
    assert_eq!(module.as_raw(), 0x7000);
    let (module, err) = module.destroy(false, 5).unwrap_err();
    assert_eq!(err.code, 5);
    assert!(module.destroy(true, 0).is_ok());
}

#[test]
fn data_blob_owns_bytes() {
    let blob = DataBlob::from_slice(&[1, 2, 3]);
    assert_eq!(blob.len(), 3);
    assert!(!blob.is_empty());
    assert_eq!(blob.as_slice(), &[1, 2, 3]);
    let (blob, err) = blob.destroy(false, 2).unwrap_err();
    assert_eq!(err.code, 2);
    assert!(blob.destroy(true, 0).is_ok());

    let empty = DataBlob::from_slice(&[]);
    assert!(empty.is_empty());
    assert_eq!(empty.len(), 0);
}

#[test]
fn crypt_unprotect_decision() {
    let err = crypt_unprotect_data(false, 13, vec![1], None).unwrap_err();
    assert_eq!(err.code, 13);

    let data = crypt_unprotect_data(true, 0, vec![9, 8], Some(wide_z("secret note"))).unwrap();
    assert_eq!(data.decrypted.as_slice(), &[9, 8]);
    assert_eq!(data.description.unwrap().to_str_lossy(), "secret note");

    let bare = crypt_unprotect_data(true, 0, vec![], None).unwrap();
    assert!(bare.description.is_none());
    assert!(bare.decrypted.is_empty());
}

#[test]
fn folder_lookup_decisions() {
    let err = get_known_folder_path(-2147024894, Some(wide_z("ignored"))).unwrap_err();
    assert_eq!(err.code, 0x8007_0002);
    assert!(get_special_folder_path(false, &wide_z("ignored")).is_none());

    let guid = FolderId::Desktop.guid();
    assert_eq!(guid.data1, 0xB4BF_CC3A);
    assert_eq!(guid.data2, 0xDB2C);
    assert_eq!(guid.data3, 0x424C);
    assert_eq!(guid.data4, [0xB0, 0x29, 0x7F, 0xE9, 0x9A, 0x87, 0xC6, 0x41]);
    let guid = FolderId::LocalAppData.guid();
    assert_eq!(guid.data1, 0xF1B3_2785);
}

#[test]
fn user_name_lookup_failure() {
    let err = get_user_name(false, 1722, &[], 0).unwrap_err();
    assert_eq!(err.code, 1722);
}

#[test]
fn com_init_failure_carries_code() {
    let err = init_mta_com_runtime(-2147417850).unwrap_err();
    assert_eq!(err.code, 0x8001_0106);
}

#[test]
fn create_instance_names_well_known_codes() {
    assert_eq!(create_instance(0, 0xABC), Ok(0xABC));
    assert_eq!(
        create_instance(0x8004_0154u32 as i32, 0),
        Err(CreateInstanceError::ClassNotRegistered)
    );
    assert_eq!(
        create_instance(0x8004_0110u32 as i32, 0),
        Err(CreateInstanceError::CannotAggregate)
    );
    assert_eq!(
        create_instance(0x8004_01F0u32 as i32, 0),
        Err(CreateInstanceError::RuntimeNotInitialized)
    );
    assert_eq!(
        create_instance(0x8000_4005u32 as i32, 0),
        Err(CreateInstanceError::Other(0x8000_4005))
    );
}

#[test]
fn hresult_classifies_failure() {
    assert!(!HResult::from_i32(0).failed());
    assert!(!HResult::from_i32(1).failed());
    assert!(HResult::from_u32(0x8004_0154).failed());
    assert_eq!(HResult::from_i32(-1).to_os_error().code, 0xFFFF_FFFF);
    assert_eq!(HResult::message_flags(false), 0x1300);
    assert_eq!(HResult::message_flags(true), 0x1B00);
}

#[test]
fn message_lookup_failure_paths() {
    let code = HResult::from_u32(0x8004_0110);
    assert_eq!(code.message(0, Some(wide_z("x")), 317).unwrap_err().code, 317);
    assert_eq!(code.message(5, None, 8).unwrap_err().code, 8);
    let message = code.message(1, Some(wide_z("m")), 0).unwrap();
    assert_eq!(message.to_str_lossy(), "m");
    let module = HModule::load(0x10, 0).unwrap();
    assert!(code
        .message_with_hmodule(Some(&module), 1, Some(wide_z("m")), 0)
        .is_ok());
}
