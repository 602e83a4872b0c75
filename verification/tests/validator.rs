use zcash_artifacts::validator::{
    looks_executable, sniff_header, FileFacts, FileKind, Verdict, EXEC_BITS,
};

fn file(mode: Option<u32>, owned: bool, header: Vec<u8>) -> Option<FileFacts> {
    Some(FileFacts { kind: FileKind::Regular, mode, owned, header })
}

#[test]
fn a_missing_file_is_an_answer() {
    assert_eq!(looks_executable(&None, false), Verdict::Missing);
    assert_eq!(looks_executable(&None, true), Verdict::Missing);
}

#[test]
fn a_directory_or_a_device_is_no_regular_file() {
    let dir = Some(FileFacts {
        kind: FileKind::Directory,
        mode: Some(0o755),
        owned: true,
        header: vec![],
    });
    let dev = Some(FileFacts {
        kind: FileKind::Special,
        mode: Some(0o755),
        owned: true,
        header: vec![],
    });
    assert_eq!(looks_executable(&dir, false), Verdict::NotRegular);
    assert_eq!(looks_executable(&dev, false), Verdict::NotRegular);
}

#[test]
fn an_executable_file_is_usable() {
    assert_eq!(looks_executable(&file(Some(0o755), false, vec![]), false), Verdict::Usable);
    assert_eq!(looks_executable(&file(Some(0o100), false, vec![]), false), Verdict::Usable);
    assert_eq!(looks_executable(&file(Some(0o001), true, vec![]), false), Verdict::Usable);
}

#[test]
fn a_platform_without_permission_bits_asks_for_none() {
    assert_eq!(looks_executable(&file(None, false, vec![]), false), Verdict::Usable);
}

#[test]
fn a_file_without_the_bit_that_is_ours_can_be_repaired() {
    assert_eq!(looks_executable(&file(Some(0o644), true, vec![]), false), Verdict::NeedsExecBit);
}

#[test]
fn a_file_without_the_bit_that_is_not_ours_is_refused() {
    assert_eq!(looks_executable(&file(Some(0o644), false, vec![]), false), Verdict::NotExecutable);
}

#[test]
fn the_header_is_looked_at_on_request_only() {
    let text = b"#!/bin/sh\n".to_vec();
    assert_eq!(looks_executable(&file(Some(0o755), true, text.clone()), false), Verdict::Usable);
    assert_eq!(looks_executable(&file(Some(0o755), true, text), true), Verdict::BadHeader);
    assert_eq!(looks_executable(&file(Some(0o755), true, vec![]), true), Verdict::BadHeader);
}

#[test]
fn a_bad_header_is_not_repaired() {
    assert_eq!(looks_executable(&file(Some(0o644), true, vec![0, 0, 0, 0]), true), Verdict::BadHeader);
}

#[test]
fn known_headers_are_accepted() {
    let elf = vec![0x7f, b'E', b'L', b'F', 2, 1, 1];
    assert!(sniff_header(&elf));
    assert!(sniff_header(&vec![0xfe, 0xed, 0xfa, 0xce]));
    assert!(sniff_header(&vec![0xfe, 0xed, 0xfa, 0xcf]));
    assert!(sniff_header(&vec![0xce, 0xfa, 0xed, 0xfe]));
    assert!(sniff_header(&vec![0xcf, 0xfa, 0xed, 0xfe]));
    assert!(sniff_header(&vec![0xca, 0xfe, 0xba, 0xbe]));
    assert_eq!(looks_executable(&file(Some(0o755), false, elf.clone()), true), Verdict::Usable);
    assert_eq!(looks_executable(&file(Some(0o600), true, elf), true), Verdict::NeedsExecBit);
}

#[test]
fn short_or_unknown_headers_are_refused() {
    assert!(!sniff_header(&vec![]));
    assert!(!sniff_header(&vec![0x7f, b'E', b'L']));
    assert!(!sniff_header(&vec![0x7f, b'E', b'L', b'G']));
    assert!(!sniff_header(&vec![b'M', b'Z', 0x90, 0]));
}

#[test]
fn exec_bits_are_the_three_execute_bits() {
    assert_eq!(EXEC_BITS, 0o111);
}
