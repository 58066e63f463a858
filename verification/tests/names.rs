use psp::sys::macros::{lib_name_bytes, lib_name_bytes_len};
use psp::SceModuleInfo;

#[test]
fn module_name_is_zero_padded() {
    let n = SceModuleInfo::name("sample_module");
    assert_eq!(&n[..13], b"sample_module");
    assert!(n[13..].iter().all(|&b| b == 0));
    assert_eq!(SceModuleInfo::name(""), [0u8; 27]);
    let full = SceModuleInfo::name("abcdefghijklmnopqrstuvwxyz0");
    assert_eq!(&full[..], b"abcdefghijklmnopqrstuvwxyz0");
}

#[test]
fn lib_name_len_pads_to_word() {
    assert_eq!(lib_name_bytes_len(""), 4);
    assert_eq!(lib_name_bytes_len("abc"), 4);
    assert_eq!(lib_name_bytes_len("sceGe"), 8);
    assert_eq!(lib_name_bytes_len("sceRtc12"), 12);
    assert_eq!(lib_name_bytes_len("ThreadManForUser"), 20);
}

#[test]
fn lib_name_bytes_zero_terminated() {
    let b: [u8; 8] = lib_name_bytes("sceGe");
    assert_eq!(&b, b"sceGe\0\0\0");
    let t: [u8; 20] = lib_name_bytes("ThreadManForUser");
    assert_eq!(&t[..16], b"ThreadManForUser");
    assert_eq!(&t[16..], &[0u8; 4]);
}
