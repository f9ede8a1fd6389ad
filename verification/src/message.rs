//! Message-level pieces shared by the notification types: protocol
//! constants, the version inference engine, and the trusted clock and URL
//! items the messages rely on.

use vstd::prelude::*;
use vstd::string::StringSliceAdditionalSpecFns;
use vstd::utf8::{encode_utf8, valid_utf8};

use crate::bytes::{contains_seq, spec_contains_seq};
use crate::header::{seq_views, spec_parse_bootid, spec_parse_configid, spec_parse_searchport,
    spec_parse_securelocation, spec_values_of, HeaderMap, BOOTID, CONFIGID, SEARCHPORT,
    SECURELOCATION};
use crate::{HeaderName, SSDPError, SSDPResult};

pub mod notify;

verus! {

/// The SERVER token claiming UPnP 1.0.
pub const UPNP_10_VERSION_NAME: &'static str = "UPnP/1.0";

/// The SERVER token claiming UPnP 1.1.
pub const UPNP_11_VERSION_NAME: &'static str = "UPnP/1.1";

/// The SERVER token claiming UPnP 2.0.
pub const UPNP_20_VERSION_NAME: &'static str = "UPnP/2.0";

/// The multicast rendezvous address and port every notification must name in
/// its HOST header.
pub const MESSAGE_MULTICAST_HOST: &'static str = "239.255.255.250:1900";

/// The HOST header name.
pub const HOST_HEADER_NAME: &'static str = "HOST";

/// The CACHE-CONTROL header name.
pub const CACHE_CONTROL_HEADER_NAME: &'static str = "CACHE-CONTROL";

/// The LOCATION header name.
pub const LOCATION_HEADER_NAME: &'static str = "LOCATION";

/// The SERVER header name.
pub const SERVER_HEADER_NAME: &'static str = "SERVER";

/// A trait for messages that allow vendor specific information to be
/// exposed.
pub trait MessageExt {
    /// The header block the message was built from.
    spec fn spec_message_headers(&self) -> Seq<(Seq<u8>, Seq<u8>)>;

    /// Checks to see if the header has a field-name that matches the given
    /// name and returns all field-values that match that name, or none.
    fn check_header(&self, name: &[u8]) -> (r: Option<Vec<Vec<u8>>>)
        ensures
            spec_values_of(self.spec_message_headers(), name@).len() == 0 <==> r is None,
            r matches Some(v) ==> seq_views(v@) == spec_values_of(
                self.spec_message_headers(),
                name@,
            ),
    ;
}

/// `std::time::Instant`, declared so that a message can carry its creation
/// reading of the monotonic clock.
#[verifier::external_type_specification]
#[verifier::external_body]
pub struct ExInstant(std::time::Instant);

/// Relies on `std::time::Instant::now`: an opaque reading of the monotonic
/// clock; nothing is assumed of its value.
pub assume_specification[ std::time::Instant::now ]() -> std::time::Instant;

/// Relies on `std::time::Instant::elapsed`: the time since the reading, as a
/// `Duration`; nothing is assumed of its value.
pub assume_specification[ std::time::Instant::elapsed ](i: &std::time::Instant) -> core::time::Duration;

/// Relies on `core::time::Duration::as_nanos`: the whole duration in
/// nanoseconds; nothing is assumed of its value.
pub assume_specification[ core::time::Duration::as_nanos ](d: &core::time::Duration) -> u128;

/// Whether `url::Url::parse` accepts a string as an absolute URL.
pub uninterp spec fn url_parse_accepts(s: Seq<char>) -> bool;

/// Relies on `url::Url::parse`: whether a string parses as an absolute URL
/// depends on its characters alone.
#[verifier::external_body]
pub fn location_parses_as_url(s: &str) -> (r: bool)
    ensures
        r == url_parse_accepts(s@),
{
    url::Url::parse(s).is_ok()
}

/// An extension trait for alive messages conforming to the UPnP 1.1
/// standard.
pub trait AliveExtV11 {
    /// The boot id the message carries.
    spec fn spec_boot_id(&self) -> u32;

    /// The config id the message carries.
    spec fn spec_config_id(&self) -> u32;

    /// The search port the message carries, if any.
    spec fn spec_search_port(&self) -> Option<u16>;

    /// A unique identifier that specifies the boot instance of the root
    /// device corresponding to the advertised device or service.
    ///
    /// This value will be the same for all alive messages that are coming
    /// from a device that has (1) not left the network since it last sent
    /// this message and (2) has not undergone any changes that triggered an
    /// UpdateMessage.
    fn boot_id(&self) -> (r: u32)
        ensures
            r == self.spec_boot_id(),
    ;

    /// A configuration number for a device is a number that denotes a
    /// combination of a device's description documents (including embedded
    /// devices/services).
    ///
    /// This feature is mostly used to verify that your service objects are
    /// still sending their actions to a valid endpoint and that a query of
    /// the device description page does not need to occur again.
    fn config_id(&self) -> (r: u32)
        ensures
            r == self.spec_config_id(),
    ;

    /// A device can choose to respond to search requests on a port other
    /// than 1900 only if that port is unavailable.
    fn search_port(&self) -> (r: Option<u16>)
        ensures
            r == self.spec_search_port(),
    ;
}

/// An extension trait for alive messages conforming to the UPnP 2.0
/// standard.
pub trait AliveExtV20: AliveExtV11 {
    /// The secure location the message carries, as its characters, if any.
    spec fn spec_secure_location(&self) -> Option<Seq<char>>;

    /// A secure location provides a means of retrieving the device
    /// description document over https.
    ///
    /// This string can be either an absolute or relative url.
    fn secure_location(&self) -> (r: Option<&str>)
        ensures
            match r {
                Some(s) => self.spec_secure_location() == Some(s@),
                None => self.spec_secure_location() is None,
            },
    ;
}

/// The mandatory UPnP 1.1 extension fields of an announcement.
#[derive(Copy, Clone, PartialEq, Eq, Structural, Hash, Debug)]
pub struct AliveExtV11Impl {
    pub boot_id: u32,
    pub config_id: u32,
    pub port: Option<u16>,
}

/// The UPnP 2.0 extension fields of an announcement.
#[derive(Clone, PartialEq, Eq, Hash, Debug)]
pub struct AliveExtV20Impl {
    pub parent: AliveExtV11Impl,
    pub secure_loc: Option<String>,
}

impl AliveExtV11 for AliveExtV11Impl {
    open spec fn spec_boot_id(&self) -> u32 {
        self.boot_id
    }

    open spec fn spec_config_id(&self) -> u32 {
        self.config_id
    }

    open spec fn spec_search_port(&self) -> Option<u16> {
        self.port
    }

    fn boot_id(&self) -> u32 {
        self.boot_id
    }

    fn config_id(&self) -> u32 {
        self.config_id
    }

    fn search_port(&self) -> Option<u16> {
        self.port
    }
}

impl AliveExtV11 for AliveExtV20Impl {
    open spec fn spec_boot_id(&self) -> u32 {
        self.parent.boot_id
    }

    open spec fn spec_config_id(&self) -> u32 {
        self.parent.config_id
    }

    open spec fn spec_search_port(&self) -> Option<u16> {
        self.parent.port
    }

    fn boot_id(&self) -> u32 {
        self.parent.boot_id
    }

    fn config_id(&self) -> u32 {
        self.parent.config_id
    }

    fn search_port(&self) -> Option<u16> {
        self.parent.port
    }
}

impl AliveExtV20 for AliveExtV20Impl {
    open spec fn spec_secure_location(&self) -> Option<Seq<char>> {
        match self.secure_loc {
            Some(s) => Some(s@),
            None => None,
        }
    }

    fn secure_location(&self) -> Option<&str> {
        match &self.secure_loc {
            Some(n) => Some(n.as_str()),
            None => None,
        }
    }
}

/// Represents AliveMessage versions pertaining to different UPnP versions.
#[derive(Clone, PartialEq, Eq, Hash, Debug)]
pub enum AliveVersion {
    /// UPnP Version 1.0.
    V10,
    /// UPnP Version 1.1.
    V11(AliveExtV11Impl),
    /// UPnP Version 2.0.
    V20(AliveExtV20Impl),
}

/// The mathematical value of an [`AliveVersion`]: the inferred revision with
/// its extension fields, a secure location as its bytes.
pub ghost enum AliveVersionV {
    V10,
    V11(u32, u32, Option<u16>),
    V20(u32, u32, Option<u16>, Option<Seq<u8>>),
}

impl View for AliveVersion {
    type V = AliveVersionV;

    open spec fn view(&self) -> AliveVersionV {
        match self {
            AliveVersion::V10 => AliveVersionV::V10,
            AliveVersion::V11(e) => AliveVersionV::V11(e.boot_id, e.config_id, e.port),
            AliveVersion::V20(e) => AliveVersionV::V20(
                e.parent.boot_id,
                e.parent.config_id,
                e.parent.port,
                match &e.secure_loc {
                    Some(s) => Some(encode_utf8(s@)),
                    None => None,
                },
            ),
        }
    }
}

/// The mandatory UPnP 1.1 fields read from a header block: BOOTID and
/// CONFIGID must be present and well-formed (a header that does not parse is
/// treated as missing), SEARCHPORT is optional.
pub open spec fn spec_v11_ext(h: Seq<(Seq<u8>, Seq<u8>)>) -> Result<
    (u32, u32, Option<u16>),
    SSDPError,
> {
    match spec_parse_bootid(spec_values_of(h, bootid_name_bytes())) {
        None => Err(SSDPError::MissingHeader(HeaderName::BootId)),
        Some(b) => match spec_parse_configid(spec_values_of(h, configid_name_bytes())) {
            None => Err(SSDPError::MissingHeader(HeaderName::ConfigId)),
            Some(c) => Ok(
                (b, c, spec_parse_searchport(spec_values_of(h, searchport_name_bytes()))),
            ),
        },
    }
}

/// The bytes of the BOOTID.UPNP.ORG header name.
pub open spec fn bootid_name_bytes() -> Seq<u8> {
    "BOOTID.UPNP.ORG".spec_bytes()
}

/// The bytes of the CONFIGID.UPNP.ORG header name.
pub open spec fn configid_name_bytes() -> Seq<u8> {
    "CONFIGID.UPNP.ORG".spec_bytes()
}

/// The bytes of the SEARCHPORT.UPNP.ORG header name.
pub open spec fn searchport_name_bytes() -> Seq<u8> {
    "SEARCHPORT.UPNP.ORG".spec_bytes()
}

/// The bytes of the SECURELOCATION.UPNP.ORG header name.
pub open spec fn securelocation_name_bytes() -> Seq<u8> {
    "SECURELOCATION.UPNP.ORG".spec_bytes()
}

/// The version an announcement's SERVER value implies, with the extension
/// fields that revision demands of the header block.
///
/// The literal substrings `UPnP/1.0`, `UPnP/1.1`, `UPnP/2.0` are tried in
/// that order and the first match wins.  A SERVER value containing several
/// version tokens is therefore classified by the earliest token in that
/// list, not the earliest in the value: a known ambiguity of substring
/// matching, kept for compatibility.
pub open spec fn spec_infer_version(server: Seq<u8>, h: Seq<(Seq<u8>, Seq<u8>)>) -> Result<
    AliveVersionV,
    SSDPError,
> {
    if spec_contains_seq(server, UPNP_10_VERSION_NAME.spec_bytes()) {
        Ok(AliveVersionV::V10)
    } else if spec_contains_seq(server, UPNP_11_VERSION_NAME.spec_bytes()) {
        match spec_v11_ext(h) {
            Ok((b, c, p)) => Ok(AliveVersionV::V11(b, c, p)),
            Err(e) => Err(e),
        }
    } else if spec_contains_seq(server, UPNP_20_VERSION_NAME.spec_bytes()) {
        match spec_v11_ext(h) {
            Ok((b, c, p)) => Ok(
                AliveVersionV::V20(
                    b,
                    c,
                    p,
                    spec_parse_securelocation(
                        spec_values_of(h, securelocation_name_bytes()),
                    ),
                ),
            ),
            Err(e) => Err(e),
        }
    } else {
        Err(SSDPError::InvalidHeader(HeaderName::Server))
    }
}

/// Read the mandatory UPnP 1.1 extension fields from a header block.
pub fn v11_ext_of(headers: &HeaderMap) -> (r: SSDPResult<AliveExtV11Impl>)
    ensures
        r matches Ok(e) ==> spec_v11_ext(headers@) == Ok::<(u32, u32, Option<u16>), SSDPError>(
            (e.boot_id, e.config_id, e.port),
        ),
        r matches Err(e) ==> spec_v11_ext(headers@) == Err::<(u32, u32, Option<u16>), SSDPError>(
            e,
        ),
{
    let boot_lines = headers.values_of("BOOTID.UPNP.ORG".as_bytes());
    let boot_id = match BOOTID::parse_header(boot_lines.as_slice()) {
        Some(b) => b.0,
        None => {
            return Err(SSDPError::MissingHeader(HeaderName::BootId));
        },
    };
    let config_lines = headers.values_of("CONFIGID.UPNP.ORG".as_bytes());
    let config_id = match CONFIGID::parse_header(config_lines.as_slice()) {
        Some(c) => c.0,
        None => {
            return Err(SSDPError::MissingHeader(HeaderName::ConfigId));
        },
    };
    let port_lines = headers.values_of("SEARCHPORT.UPNP.ORG".as_bytes());
    let port = match SEARCHPORT::parse_header(port_lines.as_slice()) {
        Some(p) => Some(p.0),
        None => None,
    };
    Ok(AliveExtV11Impl { boot_id, config_id, port })
}

/// Infer the protocol revision from a SERVER value and read the extension
/// fields that revision demands.
pub fn infer_version(server: &[u8], headers: &HeaderMap) -> (r: SSDPResult<AliveVersion>)
    ensures
        r matches Ok(v) ==> spec_infer_version(server@, headers@) == Ok::<
            AliveVersionV,
            SSDPError,
        >(v@),
        r matches Err(e) ==> spec_infer_version(server@, headers@) == Err::<
            AliveVersionV,
            SSDPError,
        >(e),
{
    if contains_seq(server, UPNP_10_VERSION_NAME.as_bytes()) {
        Ok(AliveVersion::V10)
    } else if contains_seq(server, UPNP_11_VERSION_NAME.as_bytes()) {
        match v11_ext_of(headers) {
            Ok(e) => Ok(AliveVersion::V11(e)),
            Err(e) => Err(e),
        }
    } else if contains_seq(server, UPNP_20_VERSION_NAME.as_bytes()) {
        let parent = match v11_ext_of(headers) {
            Ok(e) => e,
            Err(e) => {
                return Err(e);
            },
        };
        let secure_lines = headers.values_of("SECURELOCATION.UPNP.ORG".as_bytes());
        let secure_loc = match SECURELOCATION::parse_header(secure_lines.as_slice()) {
            Some(sl) => Some(sl.0),
            None => None,
        };
        Ok(AliveVersion::V20(AliveExtV20Impl { parent, secure_loc }))
    } else {
        Err(SSDPError::InvalidHeader(HeaderName::Server))
    }
}

} // verus!
