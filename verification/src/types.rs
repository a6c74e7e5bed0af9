//! The values that FTP commands and replies are made of.

use crate::text::{decimal_text, push_decimal};
use vstd::prelude::*;
use vstd::string::StringExecFns;

verus! {

/// What can go wrong in a session. Each kind carries a text for the reader.
#[derive(Debug)]
pub enum FtpError {
    /// The transport failed: a read, a write, a connect or a close.
    ConnectionError(String),
    /// The security layer refused a handshake or its configuration.
    SecureError(String),
    /// A reply was malformed, bore a code that was not expected, or held a
    /// payload that could not be read.
    InvalidResponse(String),
    /// The address taken from a `PASV` reply names no endpoint.
    InvalidAddress(String),
}

/// An [`FtpError`] as contracts see it.
pub enum ErrorView {
    Connection(Seq<char>),
    Secure(Seq<char>),
    InvalidResponse(Seq<char>),
    InvalidAddress(Seq<char>),
}

impl View for FtpError {
    type V = ErrorView;

    open spec fn view(&self) -> ErrorView {
        match *self {
            FtpError::ConnectionError(s) => ErrorView::Connection(s@),
            FtpError::SecureError(s) => ErrorView::Secure(s@),
            FtpError::InvalidResponse(s) => ErrorView::InvalidResponse(s@),
            FtpError::InvalidAddress(s) => ErrorView::InvalidAddress(s@),
        }
    }
}

impl ErrorView {
    /// The error as a line of text: its kind, a colon, and what it carries.
    pub open spec fn text(self) -> Seq<char> {
        match self {
            ErrorView::Connection(s) => "FTP ConnectionError: "@ + s,
            ErrorView::Secure(s) => "FTP SecureError: "@ + s,
            ErrorView::InvalidResponse(s) => "FTP InvalidResponse: "@ + s,
            ErrorView::InvalidAddress(s) => "FTP InvalidAddress: "@ + s,
        }
    }
}

impl FtpError {
    /// The error as a line of text: its kind, a colon, and what it carries.
    pub fn to_string(&self) -> (s: String)
        ensures
            s@ == self@.text(),
    {
        match self {
            FtpError::ConnectionError(m) => String::from_str("FTP ConnectionError: ").concat(
                m.as_str(),
            ),
            FtpError::SecureError(m) => String::from_str("FTP SecureError: ").concat(m.as_str()),
            FtpError::InvalidResponse(m) => String::from_str("FTP InvalidResponse: ").concat(
                m.as_str(),
            ),
            FtpError::InvalidAddress(m) => String::from_str("FTP InvalidAddress: ").concat(
                m.as_str(),
            ),
        }
    }
}

/// Text format control, the second argument of `TYPE` for text types.
#[derive(Debug, Clone, Copy, PartialEq, Eq, PartialOrd, Ord)]
pub enum FormatControl {
    /// The default, which is non-print.
    Default,
    /// Non-print: the file is not destined for a printer.
    NonPrint,
    /// Telnet format effectors.
    Telnet,
    /// ASA (Fortran) carriage control.
    Asa,
}

impl FormatControl {
    /// The letter that `TYPE` takes for this format control.
    pub open spec fn letter(self) -> Seq<char> {
        match self {
            FormatControl::Default | FormatControl::NonPrint => seq!['N'],
            FormatControl::Telnet => seq!['T'],
            FormatControl::Asa => seq!['C'],
        }
    }

    /// The letter that `TYPE` takes for this format control.
    pub fn as_str(&self) -> (s: &'static str)
        ensures
            s@ == self.letter(),
    {
        proof {
            reveal_strlit("N");
            reveal_strlit("T");
            reveal_strlit("C");
        }
        let s = match self {
            FormatControl::Default | FormatControl::NonPrint => "N",
            FormatControl::Telnet => "T",
            FormatControl::Asa => "C",
        };
        assert(s@ =~= self.letter());
        s
    }

    /// The letter that `TYPE` takes for this format control, owned.
    pub fn to_string(&self) -> (s: String)
        ensures
            s@ == self.letter(),
    {
        String::from_str(self.as_str())
    }
}

/// The representation type of a transfer, the argument of `TYPE`.
#[derive(Debug, Clone, Copy, PartialEq, Eq, PartialOrd, Ord)]
pub enum FileType {
    /// ASCII text, with its format control.
    Ascii(FormatControl),
    /// EBCDIC text, with its format control.
    Ebcdic(FormatControl),
    /// Image: the bytes as they are.
    Image,
    /// Binary, another word for image.
    Binary,
    /// Local: bytes of the given number of bits.
    Local(u8),
}

impl FileType {
    /// The argument that `TYPE` takes for this file type.
    pub open spec fn argument(self) -> Seq<char> {
        match self {
            FileType::Ascii(fc) => seq!['A', ' '] + fc.letter(),
            FileType::Ebcdic(fc) => seq!['E', ' '] + fc.letter(),
            FileType::Image | FileType::Binary => seq!['I'],
            FileType::Local(bits) => seq!['L', ' '] + decimal_text(bits as nat),
        }
    }

    /// The argument that `TYPE` takes for this file type.
    pub fn to_string(&self) -> (s: String)
        ensures
            s@ == self.argument(),
    {
        proof {
            reveal_strlit("A ");
            reveal_strlit("E ");
            reveal_strlit("I");
            reveal_strlit("L ");
        }
        match self {
            FileType::Ascii(fc) => {
                let s = String::from_str("A ").concat(fc.as_str());
                assert("A "@ =~= seq!['A', ' ']);
                s
            },
            FileType::Ebcdic(fc) => {
                let s = String::from_str("E ").concat(fc.as_str());
                assert("E "@ =~= seq!['E', ' ']);
                s
            },
            FileType::Image | FileType::Binary => {
                let s = String::from_str("I");
                assert("I"@ =~= seq!['I']);
                s
            },
            FileType::Local(bits) => {
                let mut s = String::from_str("L ");
                assert("L "@ =~= seq!['L', ' ']);
                push_decimal(&mut s, *bits as u64);
                s
            },
        }
    }
}

/// A reply of the server: its code, and its closing line without the white
/// space around it.
#[derive(Debug)]
pub struct Line(pub u32, pub String);

impl View for Line {
    type V = (u32, Seq<char>);

    open spec fn view(&self) -> (u32, Seq<char>) {
        (self.0, self.1@)
    }
}

} // verus!
