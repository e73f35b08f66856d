//! The original suite, driven through the library's boundary: each
//! foreign call's outcome is supplied as the values the call would
//! have produced.

use winwrap::objbase::{init_mta_com_runtime, CoTaskMemWideString};
use winwrap::oleauto::bstr::BStr;
use winwrap::shlobj::{
    get_known_folder_path, get_special_folder_path, ConstantSpecialItemIdList, FolderId,
};
use winwrap::winbase::get_user_name;
use winwrap::winerror::HResult;

fn wide(s: &str) -> Vec<u16> {
    s.encode_utf16().collect()
}

fn wide_z(s: &str) -> Vec<u16> {
    let mut units = wide(s);
    units.push(0);
    units
}

#[test]
fn init_mta_com() {
    init_mta_com_runtime(0).expect("failed to init COM runtime");
}

#[test]
fn co_task_mem_wide_string_smoke() {
    {
        let hello_world_str = CoTaskMemWideString::new("hello_world!")
            .expect("failed to allocate hello_world_str");
        assert_eq!(hello_world_str.len(), "hello_world!".len());
        let empty_str = CoTaskMemWideString::new("").expect("failed to allocate empty_str");
        assert!(empty_str.is_empty());
    }
}

#[test]
fn smoke() {
    let phrase = "The quick brown fox jumps over the lazy dog";
    let bstr_phrase = BStr::new(phrase);
    assert_eq!(phrase.len() * 2, bstr_phrase.len());
    assert_eq!(bstr_phrase.as_wide_slice(), &wide(phrase)[..]);
    assert_eq!(bstr_phrase.as_wide_slice_with_nul(), &wide_z(phrase)[..]);
    assert_eq!(bstr_phrase.to_string_lossy(), phrase);
    assert!(!bstr_phrase.contains_nul());
}

#[test]
fn interior_nul_smoke() {
    let phrase = "hello\0world!";
    let bstr_phrase = BStr::new(phrase);

    assert_eq!(phrase.len() * 2, bstr_phrase.len());
    assert_eq!(bstr_phrase.as_wide_slice(), &wide(phrase)[..]);
    assert_eq!(bstr_phrase.as_wide_slice_with_nul(), &wide_z(phrase)[..]);
    assert_eq!(bstr_phrase.to_string_lossy(), phrase);
    assert!(bstr_phrase.contains_nul());
}

#[test]
fn empty_bstr() {
    let s = BStr::new("");
    assert!(s.is_empty());
    assert_eq!(s.len(), 0);
    assert_eq!(s.as_wide_slice(), &[] as &[u16]);
}

#[test]
fn clone_bstr_ref() {
    let s = BStr::new("Hello World!");
    let r = s.as_bstr_ref();
    let r1 = r.clone();

    assert_eq!(r, r1);
}

#[test]
fn bstr_to_owned() {
    let s = BStr::new("Hello World!");
    let r = s.as_bstr_ref();
    let s1 = r.to_bstr();

    assert_eq!(s1, s);
}

#[test]
fn get_special_folder_path_smoke() {
    let mut buffer = wide_z("C:\\Users\\someone\\Desktop");
    buffer.resize(261, 0);
    let desktop = get_special_folder_path(true, &buffer).expect("failed to get desktop");
    assert_eq!(desktop, wide("C:\\Users\\someone\\Desktop"));
}

#[test]
fn get_known_folder_path_smoke() {
    let desktop = get_known_folder_path(0, Some(wide_z("C:\\Users\\someone\\Desktop")))
        .expect("failed to get desktop");
    assert_eq!(desktop.len(), "C:\\Users\\someone\\Desktop".len());
    let _ = FolderId::Desktop.guid();
    let local_app_data = get_known_folder_path(
        0,
        Some(wide_z("C:\\Users\\someone\\AppData\\Local")),
    )
    .expect("failed to get local_app_data");
    assert!(!local_app_data.is_empty());
    let _ = FolderId::LocalAppData.guid();
    let _ = ConstantSpecialItemIdList::Desktop.csidl();
}

#[test]
fn get_user_name_works() {
    let mut buffer = wide_z("someone");
    buffer.resize(257, 0);
    let filled = "someone".len() as u32 + 1;
    let user_name = get_user_name(true, 0, &buffer, filled).unwrap();
    assert_eq!(user_name, wide("someone"));
}

fn message_ok(code: HResult) -> bool {
    let buffer = wide_z("The operation completed.\r\n");
    let written = (buffer.len() - 1) as u32;
    code.message(written, Some(buffer), 0).is_ok()
}

#[test]
fn display_s_ok() {
    assert!(message_ok(HResult::from_i32(0)));
}

#[test]
fn display_s_false() {
    assert!(message_ok(HResult::from_i32(1)));
}

#[test]
fn display_rpc_e_changed_mode() {
    assert!(message_ok(HResult::from_u32(winwrap::winerror::RPC_E_CHANGED_MODE)));
}

#[test]
fn display_co_e_not_initialized() {
    assert!(message_ok(HResult::from_u32(winwrap::winerror::CO_E_NOTINITIALIZED)));
}

#[test]
fn display_regdb_e_class_not_reg() {
    assert!(message_ok(HResult::from_u32(winwrap::winerror::REGDB_E_CLASSNOTREG)));
}

#[test]
fn display_class_e_no_aggregation() {
    assert!(message_ok(HResult::from_u32(winwrap::winerror::CLASS_E_NOAGGREGATION)));
}
