//! The wide-string encodings: round trips, embedded terminators, the
//! owned/borrowed split, and the construction error kinds.

use winwrap::objbase::CoTaskMemWideString;
use winwrap::oleauto::bstr::{BStr, BStrCreationError, BStrRef};
use winwrap::wide::{
    decode_utf16_lossy_exec, decode_utf16_strict, decode_utf16_units, encode_utf16_str, scan_nul,
    wide_eq,
};
use winwrap::winbase::LocalWideString;

fn wide(s: &str) -> Vec<u16> {
    s.encode_utf16().collect()
}

fn wide_z(s: &str) -> Vec<u16> {
    let mut units = wide(s);
    units.push(0);
    units
}

#[test]
fn encode_matches_std() {
    for s in ["", "abc", "héllo wörld", "π ≈ 3.14159", "🌍🌎🌏", "a\u{10FFFF}b"] {
        assert_eq!(encode_utf16_str(s), wide(s));
    }
}

#[test]
fn decode_encode_round_trip() {
    for s in ["", "plain ascii", "héllo", "🌍 surrogate pairs 𝄞", "mixed π🌍x"] {
        let encoded = encode_utf16_str(s);
        let decoded = decode_utf16_strict(&encoded).expect("round trip must decode");
        assert_eq!(decoded, s);
    }
}

#[test]
fn lossy_decode_replaces_unpaired_surrogates() {
    // A lone high surrogate, a lone low surrogate, and a high
    // surrogate at the end of input.
    let units = [0xD800, 0x41, 0xDC00, 0x42, 0xD800];
    assert_eq!(decode_utf16_lossy_exec(&units), "\u{FFFD}A\u{FFFD}B\u{FFFD}");
    assert!(decode_utf16_strict(&units).is_err());
    let results = decode_utf16_units(&units);
    assert_eq!(results.len(), 5);
    assert_eq!(results[0].unwrap_err().unpaired, 0xD800);
    assert_eq!(results[1].unwrap(), 'A');
}

#[test]
fn scan_nul_finds_first_zero() {
    assert_eq!(scan_nul(&[]), 0);
    assert_eq!(scan_nul(&[0]), 0);
    assert_eq!(scan_nul(&[7, 8, 0, 9, 0]), 2);
    assert_eq!(scan_nul(&[7, 8, 9]), 3);
}

#[test]
fn wide_eq_compares_contents() {
    assert!(wide_eq(&[1, 2], &[1, 2]));
    assert!(!wide_eq(&[1, 2], &[1, 3]));
    assert!(!wide_eq(&[1, 2], &[1, 2, 3]));
}

#[test]
fn embedded_nul_truncates_nul_terminated_only() {
    let text = "hello\0world!";
    let c = CoTaskMemWideString::new(text).unwrap();
    assert_eq!(c.len(), 5);
    assert_eq!(c.as_slice(), &wide("hello")[..]);

    let b = BStr::new(text);
    assert_eq!(b.len(), text.len() * 2);
    assert!(b.contains_nul());
    assert_eq!(b.as_wide_slice(), &wide(text)[..]);
}

#[test]
fn owned_and_borrowed_agree() {
    let b = BStr::new("hello world!");
    let v = b.as_bstr_ref();
    assert_eq!(b.len(), v.len());
    assert_eq!(b.as_wide_slice(), v.as_wide_slice());
    assert!(b.eq_ref(&v));
    assert!(v.eq_str("hello world!"));
    assert!(b.eq_str("hello world!"));
}

#[test]
fn nul_terminated_len_is_idempotent() {
    let c = CoTaskMemWideString::new("scan me twice").unwrap();
    assert_eq!(c.len(), c.len());
    let l = LocalWideString::from_raw(wide_z("and me"));
    assert_eq!(l.len(), l.len());
}

#[test]
fn empty_string_round_trips_both_encodings() {
    let c = CoTaskMemWideString::new("").unwrap();
    assert!(c.is_empty());
    assert_eq!(c.len(), 0);
    assert_eq!(c.as_slice(), &[] as &[u16]);

    let b = BStr::new("");
    assert!(b.is_empty());
    assert_eq!(b.len(), 0);
    assert_eq!(b.as_wide_slice(), &[] as &[u16]);
    // The allocation still exists: the buffer holds its terminator.
    assert_eq!(b.as_wide_slice_with_nul(), &[0][..]);
    assert_eq!(b.to_string_lossy(), "");
}

#[test]
fn declared_count_mismatch_kinds() {
    let source = [1u16, 2, 3];
    assert_eq!(
        BStr::from_wide_iter(&source, 5),
        Err(BStrCreationError::IterTooShort)
    );
    assert_eq!(
        BStr::from_wide_iter(&source, 2),
        Err(BStrCreationError::IterTooLarge)
    );
    let b = BStr::from_wide_iter(&source, 3).unwrap();
    assert_eq!(b.as_wide_slice(), &source[..]);
    assert_eq!(
        BStr::from_wide_iter(&source, usize::MAX),
        Err(BStrCreationError::LenTooLarge)
    );
    assert_eq!(
        BStr::try_new("fits easily").map(|b| b.len()),
        Ok(22)
    );
}

#[test]
fn hello_world_len_in_bytes() {
    let b = BStr::new("hello world!");
    assert_eq!(b.len(), 24);
    assert_eq!(b.as_wide_slice(), &wide("hello world!")[..]);
}

#[test]
fn bstr_raw_round_trip() {
    let b = BStr::new("keep me");
    let units = b.into_raw();
    assert_eq!(units, wide_z("keep me"));
    let b2 = BStr::from_raw(units);
    assert!(b2.eq_str("keep me"));
}

#[test]
fn bstr_ref_from_ptr_reads_length() {
    let units = wide_z("length prefixed");
    let v = BStrRef::from_ptr(&units);
    assert_eq!(v.len(), "length prefixed".len() * 2);
    assert_eq!(v.as_wide_slice(), &wide("length prefixed")[..]);
    assert!(!v.contains_nul());
    assert_eq!(v.to_string_lossy(), "length prefixed");
    assert_eq!(v.display().to_display_string(), "length prefixed");
    let chars = v.chars();
    assert_eq!(chars[0].unwrap(), 'l');
}

#[test]
fn cotask_iter_walks_to_terminator() {
    let c = CoTaskMemWideString::new("ab").unwrap();
    let mut it = c.iter();
    assert!(!it.current_is_nul());
    assert_eq!(it.current(), 'a' as u16);
    assert_eq!(it.next(), Some('a' as u16));
    assert_eq!(it.next(), Some('b' as u16));
    assert_eq!(it.next(), None);
    assert_eq!(it.next(), None);
}

#[test]
fn local_wide_string_decodes() {
    let l = LocalWideString::from_raw(wide_z("hi"));
    assert_eq!(l.len(), 2);
    assert!(!l.is_empty());
    assert_eq!(l.as_slice(), &wide("hi")[..]);
    assert_eq!(l.to_str().unwrap(), "hi");
    assert_eq!(l.to_str_lossy(), "hi");
    assert_eq!(l.display().to_display_string(), "hi");
    let chars = l.chars();
    assert_eq!(chars.len(), 2);
    assert_eq!(chars[0].unwrap(), 'h');

    let bad = LocalWideString::from_raw(vec![0xD800, 0]);
    assert!(bad.to_str().is_err());
    assert_eq!(bad.to_str_lossy(), "\u{FFFD}");
}

#[test]
fn local_wide_string_destroy_recovers() {
    let l = LocalWideString::from_raw(wide_z("still mine"));
    let (l, err) = l.destroy(false, 8).unwrap_err();
    assert_eq!(err.code, 8);
    assert_eq!(l.to_str_lossy(), "still mine");
    assert!(l.destroy(true, 0).is_ok());
}
