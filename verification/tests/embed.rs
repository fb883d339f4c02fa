//! The driver files.

use xiaomi_pc_manager_lite::ec::embed::{
    after_write_attempt, arch_file_names, embedded_dll_bytes, embedded_file,
    exe_dir_dll_is_embedded, WriteStep,
};

#[test]
fn embed_test_arch_file_names_match_pointer_width() {
    let (dll, sys) = arch_file_names();
    if usize::BITS == 64 {
        assert_eq!(dll, "WinRing0x64.dll");
        assert_eq!(sys, "WinRing0x64.sys");
    } else {
        assert_eq!(dll, "WinRing0.dll");
        assert_eq!(sys, "WinRing0.sys");
    }
}

#[test]
fn test_arch_file_names_match_pointer_width() {
    let (dll, sys) = arch_file_names();
    if usize::BITS == 64 {
        assert_eq!(dll, "WinRing0x64.dll");
        assert_eq!(sys, "WinRing0x64.sys");
    } else {
        assert_eq!(dll, "WinRing0.dll");
        assert_eq!(sys, "WinRing0.sys");
    }
}

#[test]
fn test_embedded_dll_bytes_present() {
    let bytes = embedded_dll_bytes(Some(b"MZ".to_vec())).expect("embedded DLL bytes must exist");
    assert!(!bytes.is_empty(), "embedded DLL must not be empty");
}

#[test]
fn a_missing_file_is_named() {
    let (dll, _sys) = arch_file_names();
    assert_eq!(
        embedded_dll_bytes(None),
        Err(format!("{} not found in embedded binaries", dll))
    );
    assert_eq!(
        embedded_file("x.sys", None),
        Err("x.sys not found in embedded binaries".to_string())
    );
    assert_eq!(embedded_file("x.sys", Some(vec![1, 2])), Ok(vec![1, 2]));
}

#[test]
fn only_the_very_same_library_is_loaded() {
    let ours = Some(vec![1u8, 2, 3]);
    assert!(exe_dir_dll_is_embedded(&ours, &Some(vec![1, 2, 3])));
    assert!(!exe_dir_dll_is_embedded(&Some(vec![1, 2]), &ours));
    assert!(!exe_dir_dll_is_embedded(&Some(vec![1, 2, 4]), &ours));
    assert!(!exe_dir_dll_is_embedded(&None, &ours));
    assert!(!exe_dir_dll_is_embedded(&ours, &None));
    assert!(!exe_dir_dll_is_embedded(&None, &None));
}

#[test]
fn writing_is_tried_three_times() {
    let failed = || Err("busy".to_string());
    assert!(matches!(after_write_attempt(0, failed()), WriteStep::Retry));
    assert!(matches!(after_write_attempt(1, failed()), WriteStep::Retry));
    match after_write_attempt(2, failed()) {
        WriteStep::GiveUp(e) => assert_eq!(e, "busy"),
        _ => panic!("the third failure is the last"),
    }
    assert!(matches!(after_write_attempt(2, Ok(())), WriteStep::Written));
}
