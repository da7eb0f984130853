use wiiland::eeprom::{dump, error_description, usage, ReadEnd, RECORD_SIZE};

#[test]
fn empty_stream_is_success_without_newline() {
    let out = dump(&[], &ReadEnd::Eof, "empty");
    assert!(out.complete);
    assert_eq!(out.stdout, "0x00000000: (eof)");
    assert!(out.stderr.is_empty());
}

#[test]
fn partial_stream_reports_byte_offset_without_newline() {
    let out = dump(&[0x10, 0x20, 0xff], &ReadEnd::Eof, "partial");
    assert!(!out.complete);
    assert_eq!(out.stdout, "0x00000000: 0x10 0x20 0xff (eof)");
    assert_eq!(
        out.stderr,
        "Unexpected end of eeprom file 'partial' at offset 0x00000003\n"
    );
}

#[test]
fn complete_record_then_boundary_eof() {
    let out = dump(&[0, 1, 2, 0x7f, 0x80, 0xfe, 0xff, 0x55], &ReadEnd::Eof, "complete");
    assert!(out.complete);
    assert_eq!(
        out.stdout,
        "0x00000000: 0x00 0x01 0x02 0x7f 0x80 0xfe 0xff 0x55\n0x00000008: (eof)"
    );
    assert!(out.stderr.is_empty());
}

#[test]
fn read_error_reports_errno_and_offset() {
    let description = error_description("Input/output error (os error 5)", Some(5));
    let out = dump(&[0x7f], &ReadEnd::Failed { errno: 5, description }, "broken");
    assert!(!out.complete);
    assert_eq!(out.stdout, "0x00000000: 0x7f (read error 5)");
    assert_eq!(
        out.stderr,
        "Cannot read eeprom file 'broken' at offset 0x00000001: Input/output error\n"
    );
}

#[test]
fn record_offset_uses_decimal_digits() {
    let out = dump(&[0; 16], &ReadEnd::Eof, "sixteen");
    assert!(out.complete);
    assert!(out.stdout.starts_with("0x00000000:"));
    assert!(out.stdout.contains("0x00000016:"));
}

#[test]
fn error_descriptions_drop_only_the_matching_os_suffix() {
    assert_eq!(error_description("No such file or directory (os error 2)", Some(2)), "No such file or directory");
    assert_eq!(error_description("odd (os error 3)", Some(2)), "odd (os error 3)");
    assert_eq!(error_description("custom", None), "custom");
}

#[test]
fn usage_names_the_program() {
    assert_eq!(
        usage("xwiidump"),
        "Usage: xwiidump FILE\nRead a Wii Remote EEPROM file and write its contents to stdout.\n"
    );
    assert_eq!(RECORD_SIZE, 8);
}
