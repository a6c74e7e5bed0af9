//! An FTP client's protocol engine.
//!
//! The crate holds everything an FTP client decides: how commands are
//! written, how replies are framed and checked, how the payloads of `PASV`,
//! `PWD`, `MDTM` and `SIZE` replies are read, and in which order the control
//! and data connections are used. It opens no socket itself: a session hands
//! out [`Action`]s, the caller performs them and reports back with [`Event`]s.

pub mod datetime;
pub mod ftp;
pub mod model;
pub mod pattern;
pub mod payload;
pub mod reply;
pub mod status;
pub mod text;
pub mod types;

pub use self::ftp::FtpStream;
pub use self::types::FtpError;
