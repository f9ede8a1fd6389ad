//! Client-side protocol engine for SSDP, the UDP multicast discovery
//! mechanism underlying UPnP.
//!
//! The library parses and validates NOTIFY announcements: it decomposes
//! header values into typed identifiers, infers the UPnP protocol revision
//! from the SERVER header, enforces the NT/USN consistency rules, and
//! assembles fully typed, time-stamped notification records.  Socket I/O and
//! the HTTP tokenizer live outside the library; the entry points here take
//! plain header maps and byte strings.

use vstd::prelude::*;

pub mod bytes;
pub mod discovery;
pub mod field;
pub mod forum;
pub mod header;
pub mod message;
pub mod version;

verus! {

/// Result type carrying a [`SimpleError`].
pub type SimpleResult<T> = Result<T, SimpleError>;

/// Error containing just an error message.
#[derive(Copy, Clone, PartialEq, Eq, Hash, Debug)]
pub struct SimpleError {
    pub desc: &'static str,
}

impl SimpleError {
    /// Create a new SimpleError with the given description.
    pub fn new(desc: &'static str) -> (r: SimpleError)
        ensures
            r.desc == desc,
    {
        SimpleError { desc: desc }
    }

    /// The error message carried by this error.
    pub fn description(&self) -> (r: &'static str)
        ensures
            r == self.desc,
    {
        self.desc
    }
}

/// The headers the notification pipeline reads, named for error reporting.
#[derive(Copy, Clone, PartialEq, Eq, Structural, Hash, Debug)]
pub enum HeaderName {
    Host,
    CacheControl,
    Location,
    Server,
    Nt,
    Nts,
    Usn,
    BootId,
    ConfigId,
    SearchPort,
    SecureLocation,
}

/// Enumerates all errors that can occur while parsing and validating an SSDP
/// message.
#[derive(Copy, Clone, PartialEq, Eq, Structural, Hash, Debug)]
pub enum SSDPError {
    /// A mandatory header is absent, or not readable as its type.
    MissingHeader(HeaderName),
    /// A header is present but breaks a validation rule.
    InvalidHeader(HeaderName),
    /// The request method is not NOTIFY.
    InvalidMethod,
    /// The request target is not `*`.
    InvalidUri,
    /// The notification type could not be resolved into a target.
    Target(crate::forum::TargetError),
}

/// Result type carrying an [`SSDPError`].
pub type SSDPResult<T> = Result<T, SSDPError>;

/// Enumerates all errors that can occur when dealing with a SOAP message.
#[derive(Copy, Clone, PartialEq, Eq, Hash, Debug)]
pub enum SOAPError {
    NoError,
}

} // verus!
