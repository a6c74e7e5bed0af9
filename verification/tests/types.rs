use ftp::types::{FileType, FormatControl, FtpError, Line};

#[test]
fn error_str() {
    assert_eq!(
        FtpError::ConnectionError(
            std::io::Error::new(std::io::ErrorKind::TimedOut, "timed out").to_string()
        )
        .to_string(),
        "FTP ConnectionError: timed out"
    );

    assert_eq!(
        FtpError::InvalidResponse("500 Bad Command".to_owned()).to_string(),
        "FTP InvalidResponse: 500 Bad Command"
    );
}

#[test]
fn format_control_str() {
    assert_eq!(FormatControl::Default.to_string(), "N");
    assert_eq!(FormatControl::NonPrint.to_string(), "N");
    assert_eq!(FormatControl::Telnet.to_string(), "T");
    assert_eq!(FormatControl::Asa.to_string(), "C");
}

#[test]
fn file_type_str() {
    assert_eq!(FileType::Ascii(FormatControl::Default).to_string(), "A N");
    assert_eq!(FileType::Ebcdic(FormatControl::Asa).to_string(), "E C");
    assert_eq!(FileType::Image.to_string(), "I");
    assert_eq!(FileType::Binary.to_string(), "I");
    assert_eq!(FileType::Local(6).to_string(), "L 6");
}

#[test]
fn format_control_as_str() {
    assert_eq!(FormatControl::Default.as_str(), "N");
    assert_eq!(FormatControl::NonPrint.as_str(), "N");
    assert_eq!(FormatControl::Telnet.as_str(), "T");
    assert_eq!(FormatControl::Asa.as_str(), "C");
}

#[test]
fn file_type_with_every_format_control() {
    assert_eq!(FileType::Ascii(FormatControl::NonPrint).to_string(), "A N");
    assert_eq!(FileType::Ascii(FormatControl::Telnet).to_string(), "A T");
    assert_eq!(FileType::Ascii(FormatControl::Asa).to_string(), "A C");
    assert_eq!(FileType::Ebcdic(FormatControl::Default).to_string(), "E N");
    assert_eq!(FileType::Ebcdic(FormatControl::Telnet).to_string(), "E T");
}

#[test]
fn local_file_type_writes_its_bits_in_decimal() {
    assert_eq!(FileType::Local(0).to_string(), "L 0");
    assert_eq!(FileType::Local(8).to_string(), "L 8");
    assert_eq!(FileType::Local(36).to_string(), "L 36");
    assert_eq!(FileType::Local(100).to_string(), "L 100");
    assert_eq!(FileType::Local(255).to_string(), "L 255");
}

#[test]
fn every_error_kind_has_its_text() {
    assert_eq!(
        FtpError::SecureError("handshake refused".to_owned()).to_string(),
        "FTP SecureError: handshake refused"
    );
    assert_eq!(
        FtpError::InvalidAddress("invalid socket address syntax".to_owned()).to_string(),
        "FTP InvalidAddress: invalid socket address syntax"
    );
    assert_eq!(FtpError::ConnectionError(String::new()).to_string(), "FTP ConnectionError: ");
}

#[test]
fn file_types_compare_as_values() {
    assert_eq!(FileType::Ascii(FormatControl::Default), FileType::Ascii(FormatControl::Default));
    assert_ne!(FileType::Image, FileType::Binary);
    assert!(FormatControl::Default < FormatControl::Asa);
    assert!(FileType::Ascii(FormatControl::Asa) < FileType::Local(0));
}

#[test]
fn line_holds_code_and_text() {
    let line = Line(220, "220 ready".to_owned());
    assert_eq!(line.0, 220);
    assert_eq!(line.1, "220 ready");
}
