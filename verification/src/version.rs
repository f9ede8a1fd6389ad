//! Version numbering for devices and services.

use vstd::prelude::*;
use vstd::string::StringSliceAdditionalSpecFns;

use crate::bytes::spec_parse_unsigned;

verus! {

pub const VERSION_1: u8 = 1;

pub const VERSION_2: u8 = 2;

pub const VERSION_3: u8 = 3;

pub const VERSION_4: u8 = 4;

pub const VERSION_5: u8 = 5;

/// Version numbers for devices and services.
#[derive(Copy, Clone, PartialEq, Eq, Structural, Hash, Debug)]
pub enum Version {
    V1,
    V2,
    V3,
    V4,
    V5,
}

/// The Version denoted by a numeric value, if it is one of the five known
/// versions.
pub open spec fn spec_version_from_u8(version: u8) -> Option<Version> {
    match version {
        1u8 => Some(Version::V1),
        2u8 => Some(Version::V2),
        3u8 => Some(Version::V3),
        4u8 => Some(Version::V4),
        5u8 => Some(Version::V5),
        _ => None,
    }
}

/// The Version denoted by a decimal numeral, if it names one of the five
/// known versions.
pub open spec fn spec_version_from_bytes(s: Seq<u8>) -> Option<Version> {
    match spec_parse_unsigned(s) {
        Some(n) => if n <= 255 {
            spec_version_from_u8(n as u8)
        } else {
            None
        },
        None => None,
    }
}

impl Version {
    /// Convert a string representation of a version to a Version.
    pub fn from_str(version: &str) -> (r: Option<Version>)
        ensures
            r == spec_version_from_bytes(version.spec_bytes()),
    {
        match crate::bytes::parse_unsigned_bounded(version.as_bytes(), 255) {
            Some(n) => Version::from_u8(n as u8),
            None => None,
        }
    }

    /// Convert a number representation of a version to a Version.
    pub fn from_u8(version: u8) -> (r: Option<Version>)
        ensures
            r == spec_version_from_u8(version),
    {
        match version {
            VERSION_1 => Some(Version::V1),
            VERSION_2 => Some(Version::V2),
            VERSION_3 => Some(Version::V3),
            VERSION_4 => Some(Version::V4),
            VERSION_5 => Some(Version::V5),
            _ => None,
        }
    }
}

} // verus!
