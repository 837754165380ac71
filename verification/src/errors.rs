//! The library's error type and its mapping to HTTP status codes.
//!
//! Failures from outside components are converted into these variants at
//! the boundary; core logic only ever sees this type.

use vstd::prelude::*;

use crate::textfmt::{dec_u16, spec_dec};

verus! {

/// The kind of an input/output failure, held as plain data.
#[derive(Clone, Copy, Debug, PartialEq, Eq, Structural)]
pub enum IoKind {
    NotFound,
    PermissionDenied,
    AlreadyExists,
    InvalidInput,
    InvalidData,
    TimedOut,
    Interrupted,
    UnexpectedEof,
    Other,
}

/// The description of each input/output failure kind.
pub open spec fn spec_io_kind_text(k: IoKind) -> Seq<char> {
    match k {
        IoKind::NotFound => "entity not found"@,
        IoKind::PermissionDenied => "permission denied"@,
        IoKind::AlreadyExists => "entity already exists"@,
        IoKind::InvalidInput => "invalid input parameter"@,
        IoKind::InvalidData => "invalid data"@,
        IoKind::TimedOut => "timed out"@,
        IoKind::Interrupted => "operation interrupted"@,
        IoKind::UnexpectedEof => "unexpected end of file"@,
        IoKind::Other => "other error"@,
    }
}

impl IoKind {
    /// The description of this failure kind.
    pub fn text(&self) -> (r: String)
        ensures
            r@ == spec_io_kind_text(*self),
    {
        match self {
            IoKind::NotFound => String::from_str("entity not found"),
            IoKind::PermissionDenied => String::from_str("permission denied"),
            IoKind::AlreadyExists => String::from_str("entity already exists"),
            IoKind::InvalidInput => String::from_str("invalid input parameter"),
            IoKind::InvalidData => String::from_str("invalid data"),
            IoKind::TimedOut => String::from_str("timed out"),
            IoKind::Interrupted => String::from_str("operation interrupted"),
            IoKind::UnexpectedEof => String::from_str("unexpected end of file"),
            IoKind::Other => String::from_str("other error"),
        }
    }
}

/// Everything that can go wrong in this library.
#[derive(Debug)]
pub enum Error {
    /// No files were supplied at startup.
    NoFiles,
    /// Mutually exclusive options were both set.
    ArgConflict,
    /// A supplied path does not resolve to an existing, readable file.
    InvalidFile(String),
    /// A single-consumption special file, which cannot be served.
    NoFifo(String),
    /// An input/output failure of the carried kind.
    IO(IoKind),
    /// A digesting unit could not be joined because it panicked.
    JoinPanic,
    /// A digesting unit was cancelled before completion.
    JoinCancel,
    /// Lock-protected state became unusable.
    PoisonSync,
    /// No outside-facing IPv4 address is available.
    NoGlobalIpv4,
    /// A composed URL does not parse as a URI.
    Uri(String),
    /// QR encoding failed.
    Qr,
    /// An HTTP status with a message, surfaced directly to clients.
    HttpResponse(u16, String),
}

/// The message text of each error.
pub open spec fn spec_error_text(e: Error) -> Seq<char> {
    match e {
        Error::NoFiles => "No files supplied"@,
        Error::ArgConflict => "Conflicting arguments found"@,
        Error::InvalidFile(p) => "Invalid file at "@ + p@,
        Error::NoFifo(p) => "FIFO file at "@ + p@,
        Error::IO(k) => "Error from std::io: "@ + spec_io_kind_text(k),
        Error::JoinPanic => "Cannot join task"@,
        Error::JoinCancel => "Task canceled"@,
        Error::PoisonSync => "Lock poisoned"@,
        Error::NoGlobalIpv4 => "No outside-facing IPv4 address"@,
        Error::Uri(s) => "Cannot parse as URI: "@ + s@,
        Error::Qr => "Cannot encode data as a QR code"@,
        Error::HttpResponse(code, body) => seq!['('] + spec_dec(code as int) + ") "@ + body@,
    }
}

impl Error {
    /// The HTTP status this error maps to: the carried status for a
    /// status-with-message error, an internal server error otherwise.
    pub fn status_code(&self) -> (r: u16)
        ensures
            r == match *self {
                Error::HttpResponse(code, _) => code,
                _ => 500u16,
            },
    {
        match self {
            Error::HttpResponse(code, _) => *code,
            _ => 500,
        }
    }

    /// The message text of this error.
    pub fn text(&self) -> (r: String)
        ensures
            r@ == spec_error_text(*self),
    {
        match self {
            Error::NoFiles => String::from_str("No files supplied"),
            Error::ArgConflict => String::from_str("Conflicting arguments found"),
            Error::InvalidFile(p) => {
                let mut s = String::from_str("Invalid file at ");
                s.append(p.as_str());
                s
            },
            Error::NoFifo(p) => {
                let mut s = String::from_str("FIFO file at ");
                s.append(p.as_str());
                s
            },
            Error::IO(k) => {
                let mut s = String::from_str("Error from std::io: ");
                let kind = k.text();
                s.append(kind.as_str());
                s
            },
            Error::JoinPanic => String::from_str("Cannot join task"),
            Error::JoinCancel => String::from_str("Task canceled"),
            Error::PoisonSync => String::from_str("Lock poisoned"),
            Error::NoGlobalIpv4 => String::from_str("No outside-facing IPv4 address"),
            Error::Uri(u) => {
                let mut s = String::from_str("Cannot parse as URI: ");
                s.append(u.as_str());
                s
            },
            Error::Qr => String::from_str("Cannot encode data as a QR code"),
            Error::HttpResponse(code, body) => {
                let mut s = String::from_str("(");
                let num = dec_u16(*code);
                s.append(num.as_str());
                s.append(") ");
                s.append(body.as_str());
                proof {
                    reveal_strlit("(");
                    assert("("@ =~= seq!['(']);
                    assert(s@ =~= spec_error_text(*self));
                }
                s
            },
        }
    }
}

/// The usual result type of this library.
pub type Result<T> = core::result::Result<T, Error>;

} // verus!
