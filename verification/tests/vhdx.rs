//! Scenarios for VHDX containers.

use issen::vhdx::{is_vhdx_entry, Confidence, RtError, VhdxError, VhdxProvider};

#[test]
fn vhdx_error_io_displays_message() {
    let err = VhdxError::Io("file not found".to_string());
    let display = err.message();
    assert!(display.contains("file not found"));
}

#[test]
fn vhdx_error_parse_displays_message() {
    let err = VhdxError::Vhdx("bad magic".to_string());
    let display = err.message();
    assert!(display.contains("bad magic"));
}

#[test]
fn vhdx_error_messages_are_prefixed() {
    assert_eq!(VhdxError::Io("x".to_string()).message(), "I/O error: x");
    assert_eq!(VhdxError::Vhdx("y".to_string()).message(), "VHDX parse error: y");
}

#[test]
fn from_vhdx_error_io_converts_to_issen_error() {
    let vhdx_err = VhdxError::Io("denied".to_string());
    let rt_err: RtError = vhdx_err.into();
    assert!(matches!(rt_err, RtError::Io(_)));
}

#[test]
fn from_vhdx_error_parse_converts_to_rt_parse_error() {
    let vhdx_err = VhdxError::Vhdx("corrupt region table".to_string());
    let rt_err: RtError = vhdx_err.into();
    assert!(matches!(rt_err, RtError::Parse { ref message, .. } if message.contains("vhdx")));
}

#[test]
fn parse_error_carries_offset_zero_and_prefixed_message() {
    let rt_err: RtError = VhdxError::Vhdx("corrupt".to_string()).into();
    assert_eq!(
        rt_err,
        RtError::Parse {
            offset: 0,
            message: "vhdx: corrupt".to_string()
        }
    );
}

#[test]
fn vhdx_provider_name() {
    assert_eq!(VhdxProvider.name(), "VHDX");
}

#[test]
fn vhdx_provider_probe_valid_magic_returns_high() {
    assert_eq!(
        VhdxProvider.confidence_for_header(b"vhdxfile\x00\x00\x00\x00"),
        Confidence::High
    );
}

#[test]
fn vhdx_provider_probe_wrong_magic_returns_none() {
    assert_eq!(
        VhdxProvider.confidence_for_header(b"not-vhdx\x00\x00\x00\x00"),
        Confidence::Unrecognized
    );
}

#[test]
fn short_header_is_unrecognized() {
    assert_eq!(
        VhdxProvider.confidence_for_header(b"vhdx"),
        Confidence::Unrecognized
    );
    assert_eq!(VhdxProvider.confidence_for_header(b"vhdxfile"), Confidence::High);
}

#[test]
fn is_vhdx_entry_recognizes_only_vhdx_basenames() {
    assert!(is_vhdx_entry("disk.vhdx"));
    assert!(is_vhdx_entry("case/DC01.VHDX"));
    assert!(is_vhdx_entry("nested/dir/image.vhdx"));
    assert!(!is_vhdx_entry("disk.vhd"));
    assert!(!is_vhdx_entry("disk.vhdx.txt"));
    assert!(!is_vhdx_entry("notes.txt"));
    assert!(!is_vhdx_entry("case/"));
    assert!(!is_vhdx_entry(".vhdx"));
}

#[test]
fn windows_separators_and_mixed_case() {
    assert!(is_vhdx_entry("case\\img.VhDx"));
    assert!(!is_vhdx_entry("dir/.vhdx"));
    assert!(is_vhdx_entry("a.vhdx"));
}
