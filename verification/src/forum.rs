//! Implements the UPnP Device Architecture and UPnP Forum layers of the UPnP
//! standard.
//!
//! This module deals with device and service identification for devices and
//! services that have been standardized by the UPnP working committee.

use vstd::prelude::*;
use vstd::string::StringSliceAdditionalSpecFns;
use vstd::utf8::valid_utf8;

use crate::bytes::{bytes_as_str, bytes_eq, find_byte, COLON};
use crate::field::{FieldPair, FieldView};
use crate::version::{spec_version_from_bytes, spec_version_from_u8, Version};
use crate::SimpleError;

pub mod device;
pub mod query;
pub mod service;

use device::{spec_match_vendor_name, DeviceType, DeviceTypeV};
use service::ServiceType;

verus! {

/// The schema naming types standardized by the UPnP forum.
pub const UPNP_SCHEMA_VALUE: &'static str = "schemas-upnp-org";

/// The UPnP keyword naming a root device.
pub const UPNP_ROOT_VALUE: &'static str = "rootdevice";

/// The URN class naming a device type.
pub const URN_DEVICE_VALUE: &'static str = "device";

/// The URN class naming a service type.
pub const URN_SERVICE_VALUE: &'static str = "service";

/// Why a field pair could not be resolved into a target.
#[derive(Copy, Clone, PartialEq, Eq, Structural, Hash, Debug)]
pub enum TargetError {
    /// A UPnP keyword other than `rootdevice`.
    InvalidUpnpValue,
    /// A UUID value that is not valid UTF-8.
    InvalidUuidUtf8,
    /// A URN value that is not valid UTF-8.
    InvalidUrnUtf8,
    /// A URN value with no class component.
    MissingClass,
    /// A URN value with no type component.
    MissingType,
    /// A URN value with no version component.
    MissingVersion,
    /// A URN version component naming no known version.
    InvalidVersion,
    /// A URN value with components after the version.
    InvalidFormat,
    /// A URN class other than `device` or `service`.
    InvalidTargetClass,
    /// A device URN under a vendor schema; the vendor-extension path is
    /// unsupported.
    UnsupportedSchema,
    /// An unknown field key, which is invalid as a target.
    UnknownFieldKey,
}

impl TargetError {
    /// Render this error as a [`SimpleError`] with a fixed message.
    pub fn to_simple_error(&self) -> (r: SimpleError)
        ensures
            r == spec_target_error_message(*self),
    {
        match self {
            TargetError::InvalidUpnpValue => SimpleError::new("Target UPnP Field Value Is Invalid"),
            TargetError::InvalidUuidUtf8 => SimpleError::new("Target UUID Value Is Invalid UTF-8"),
            TargetError::InvalidUrnUtf8 => SimpleError::new("Target URN Value Is Invalid UTF-8"),
            TargetError::MissingClass => SimpleError::new("Target URN Value Is Missing Class"),
            TargetError::MissingType => SimpleError::new("Target URN Value Is Missing Type"),
            TargetError::MissingVersion => SimpleError::new("Target URN Value Is Missing Version"),
            TargetError::InvalidVersion => SimpleError::new("Target URN Value Has Invalid Version"),
            TargetError::InvalidFormat => SimpleError::new("Target URN Value Has Invalid Format"),
            TargetError::InvalidTargetClass => SimpleError::new(
                "Target URN Value Has Invalid Target Class (Device/Service)",
            ),
            TargetError::UnsupportedSchema => SimpleError::new(
                "Target URN Value Has Unsupported Vendor Schema",
            ),
            TargetError::UnknownFieldKey => SimpleError::new(
                "Target Unknown Field Key Is Invalid As A Target Type",
            ),
        }
    }
}

/// The message [`TargetError::to_simple_error`] gives each error.
pub open spec fn spec_target_error_message(e: TargetError) -> SimpleError {
    match e {
        TargetError::InvalidUpnpValue => (SimpleError {
            desc: "Target UPnP Field Value Is Invalid",
        }),
        TargetError::InvalidUuidUtf8 => (SimpleError { desc: "Target UUID Value Is Invalid UTF-8" }),
        TargetError::InvalidUrnUtf8 => (SimpleError { desc: "Target URN Value Is Invalid UTF-8" }),
        TargetError::MissingClass => (SimpleError { desc: "Target URN Value Is Missing Class" }),
        TargetError::MissingType => (SimpleError { desc: "Target URN Value Is Missing Type" }),
        TargetError::MissingVersion => (SimpleError { desc: "Target URN Value Is Missing Version" }),
        TargetError::InvalidVersion => (SimpleError { desc: "Target URN Value Has Invalid Version" }),
        TargetError::InvalidFormat => (SimpleError { desc: "Target URN Value Has Invalid Format" }),
        TargetError::InvalidTargetClass => (SimpleError {
            desc: "Target URN Value Has Invalid Target Class (Device/Service)",
        }),
        TargetError::UnsupportedSchema => (SimpleError {
            desc: "Target URN Value Has Unsupported Vendor Schema",
        }),
        TargetError::UnknownFieldKey => (SimpleError {
            desc: "Target Unknown Field Key Is Invalid As A Target Type",
        }),
    }
}

/// Represents a class of devices or services.
///
/// Used to denote all root devices, specific devices, all devices of the form
/// (schema, type, version), or all services of the form (schema, type,
/// version).
#[derive(PartialEq, Eq, Hash, Debug)]
pub enum TargetType {
    Root,
    UUID,
    Device(DeviceType),
    Service(ServiceType),
}

/// The mathematical value of a [`TargetType`].
pub ghost enum TargetTypeV {
    Root,
    UUID,
    Device(DeviceTypeV),
    Service(ServiceType),
}

impl View for TargetType {
    type V = TargetTypeV;

    open spec fn view(&self) -> TargetTypeV {
        match self {
            TargetType::Root => TargetTypeV::Root,
            TargetType::UUID => TargetTypeV::UUID,
            TargetType::Device(d) => TargetTypeV::Device(d@),
            TargetType::Service(s) => TargetTypeV::Service(*s),
        }
    }
}

/// The part of `b` before its first colon; all of `b` when it has none.
pub open spec fn first_chunk(b: Seq<u8>) -> Seq<u8> {
    match b.index_of_first(COLON) {
        Some(i) => b.take(i),
        None => b,
    }
}

/// The part of `b` after its first colon, when it has one.
pub open spec fn rest_after(b: Seq<u8>) -> Option<Seq<u8>> {
    match b.index_of_first(COLON) {
        Some(i) => Some(b.skip(i + 1)),
        None => None,
    }
}

/// The target a URN value resolves to: its colon-separated components are
/// schema, class (`device` or `service`), type name, and a version numeral
/// naming one of the five known versions; nothing may follow the version.
pub open spec fn spec_resolve_urn(v: Seq<u8>) -> Result<TargetTypeV, TargetError> {
    if !valid_utf8(v) {
        Err(TargetError::InvalidUrnUtf8)
    } else {
        let schema = first_chunk(v);
        match rest_after(v) {
            None => Err(TargetError::MissingClass),
            Some(r1) => {
                let class = first_chunk(r1);
                match rest_after(r1) {
                    None => Err(TargetError::MissingType),
                    Some(r2) => {
                        let tname = first_chunk(r2);
                        match rest_after(r2) {
                            None => Err(TargetError::MissingVersion),
                            Some(r3) => spec_resolve_urn_tail(schema, class, tname, r3),
                        }
                    },
                }
            },
        }
    }
}

/// The tail of URN resolution, once schema, class and type name are cut off:
/// judge the version component and the class.
pub open spec fn spec_resolve_urn_tail(
    schema: Seq<u8>,
    class: Seq<u8>,
    tname: Seq<u8>,
    r3: Seq<u8>,
) -> Result<TargetTypeV, TargetError> {
    match spec_version_from_bytes(first_chunk(r3)) {
        None => Err(TargetError::InvalidVersion),
        Some(ver) => if rest_after(r3) is Some {
            Err(TargetError::InvalidFormat)
        } else if class == URN_DEVICE_VALUE.spec_bytes() {
            if schema == UPNP_SCHEMA_VALUE.spec_bytes() {
                Ok(TargetTypeV::Device(spec_match_vendor_name(tname, ver)))
            } else {
                Err(TargetError::UnsupportedSchema)
            }
        } else if class == URN_SERVICE_VALUE.spec_bytes() {
            Ok(TargetTypeV::Service(ServiceType::PlaceHolder))
        } else {
            Err(TargetError::InvalidTargetClass)
        },
    }
}

/// The target a field pair resolves to.
pub open spec fn spec_resolve_target(f: FieldView) -> Result<TargetTypeV, TargetError> {
    match f {
        FieldView::UPnP(v) => if v == UPNP_ROOT_VALUE.spec_bytes() {
            Ok(TargetTypeV::Root)
        } else {
            Err(TargetError::InvalidUpnpValue)
        },
        FieldView::UUID(v) => if valid_utf8(v) {
            Ok(TargetTypeV::UUID)
        } else {
            Err(TargetError::InvalidUuidUtf8)
        },
        FieldView::URN(v) => spec_resolve_urn(v),
        FieldView::Unknown(_, _) => Err(TargetError::UnknownFieldKey),
    }
}

impl Clone for TargetType {
    /// Clone the target type, keeping its value.
    fn clone(&self) -> (r: Self)
        ensures
            r@ == self@,
    {
        match self {
            TargetType::Root => TargetType::Root,
            TargetType::UUID => TargetType::UUID,
            TargetType::Device(d) => TargetType::Device(d.clone()),
            TargetType::Service(s) => TargetType::Service(*s),
        }
    }
}

impl TargetType {
    /// Create a new target type from the given target value.
    pub fn new(target: &FieldPair) -> (r: Result<TargetType, TargetError>)
        ensures
            r matches Ok(t) ==> spec_resolve_target(target@) == Ok::<TargetTypeV, TargetError>(t@),
            r matches Err(e) ==> spec_resolve_target(target@) == Err::<TargetTypeV, TargetError>(
                e,
            ),
    {
        match target {
            FieldPair::UPnP(n) => validate_upnp(n.as_slice()),
            FieldPair::UUID(n) => validate_uuid(n.as_slice()),
            FieldPair::URN(n) => parse_urn(n.as_slice()),
            FieldPair::Unknown(_, _) => Err(TargetError::UnknownFieldKey),
        }
    }
}

/// Validate the value of a upnp target.
///
/// Returns the corresponding TargetType or an error.
fn validate_upnp(value: &[u8]) -> (r: Result<TargetType, TargetError>)
    ensures
        r matches Ok(t) ==> spec_resolve_target(FieldView::UPnP(value@)) == Ok::<
            TargetTypeV,
            TargetError,
        >(t@),
        r matches Err(e) ==> spec_resolve_target(FieldView::UPnP(value@)) == Err::<
            TargetTypeV,
            TargetError,
        >(e),
{
    if bytes_eq(value, UPNP_ROOT_VALUE.as_bytes()) {
        Ok(TargetType::Root)
    } else {
        Err(TargetError::InvalidUpnpValue)
    }
}

/// Validate the value of a uuid target.
///
/// Returns the corresponding TargetType or an error.
fn validate_uuid(value: &[u8]) -> (r: Result<TargetType, TargetError>)
    ensures
        r matches Ok(t) ==> spec_resolve_target(FieldView::UUID(value@)) == Ok::<
            TargetTypeV,
            TargetError,
        >(t@),
        r matches Err(e) ==> spec_resolve_target(FieldView::UUID(value@)) == Err::<
            TargetTypeV,
            TargetError,
        >(e),
{
    // The only guarantee the standard gives for a 1.0 UUID value is that it
    // is a valid string, so only UTF-8 validity is checked.
    match bytes_as_str(value) {
        Some(_) => Ok(TargetType::UUID),
        None => Err(TargetError::InvalidUuidUtf8),
    }
}

/// Cut a byte string at its first colon.
fn next_chunk<'a>(s: &'a [u8]) -> (r: (&'a [u8], Option<&'a [u8]>))
    ensures
        r.0@ == first_chunk(s@),
        match r.1 {
            Some(rest) => rest_after(s@) == Some(rest@),
            None => rest_after(s@) is None,
        },
{
    let n = s.len();
    match find_byte(s, COLON) {
        Some(i) => {
            proof {
                s@.index_of_first_ensures(COLON);
                assert(s@.contains(COLON)) by {
                    assert(s@[i as int] == COLON);
                }
                let fi = s@.index_of_first(COLON)->Some_0;
                if fi < i as int {
                    assert(s@[fi] != COLON);
                }
                if fi > i as int {
                    assert(s@[i as int] != COLON);
                }
            }
            let head = vstd::slice::slice_subrange(s, 0, i);
            let rest = vstd::slice::slice_subrange(s, i + 1, n);
            assert(head@ =~= s@.take(i as int));
            assert(rest@ =~= s@.skip(i + 1));
            (head, Some(rest))
        },
        None => {
            proof {
                s@.index_of_first_ensures(COLON);
                match s@.index_of_first(COLON) {
                    Some(fi) => {
                        assert(s@[fi] != COLON);
                    },
                    None => {},
                }
            }
            (s, None)
        },
    }
}

/// A valid UTF-8 byte string stays valid when an ASCII head byte is dropped.
proof fn lemma_valid_utf8_drop_ascii_head(s: Seq<u8>)
    requires
        valid_utf8(s),
        s.len() > 0,
        s[0] < 128,
    ensures
        valid_utf8(s.drop_first()),
{
    assert(vstd::utf8::is_leading_byte_width_1(s[0]));
    assert(vstd::utf8::length_of_first_scalar(s) == 1);
    assert(vstd::utf8::pop_first_scalar(s) =~= s.drop_first());
}

/// Splitting a valid UTF-8 byte string at an ASCII byte leaves two valid
/// UTF-8 byte strings.
pub proof fn lemma_valid_utf8_split_ascii(b: Seq<u8>, i: int)
    requires
        valid_utf8(b),
        0 <= i < b.len(),
        b[i] < 128,
    ensures
        valid_utf8(b.take(i)),
        valid_utf8(b.skip(i + 1)),
{
    vstd::utf8::is_char_boundary_iff_not_is_continuation_byte(b, i);
    assert(vstd::utf8::is_char_boundary(b, i));
    vstd::utf8::valid_utf8_split(b, i);
    assert(b.take(i) =~= b.subrange(0, i));
    let tail = b.subrange(i, b.len() as int);
    lemma_valid_utf8_drop_ascii_head(tail);
    assert(tail.drop_first() =~= b.skip(i + 1));
}

/// The chunks of a valid UTF-8 byte string are valid UTF-8.
proof fn lemma_chunks_valid(b: Seq<u8>)
    requires
        valid_utf8(b),
    ensures
        valid_utf8(first_chunk(b)),
        rest_after(b) matches Some(r) ==> valid_utf8(r),
{
    b.index_of_first_ensures(COLON);
    match b.index_of_first(COLON) {
        Some(i) => {
            lemma_valid_utf8_split_ascii(b, i);
        },
        None => {
        },
    }
}

/// Parse the value of a urn target.
///
/// Returns the corresponding TargetType or an error.  A URN under a vendor
/// schema that names a device class is unsupported: the vendor-extension
/// path is not implemented, and such a value is reported as a typed error
/// rather than accepted or dropped silently.
fn parse_urn(value: &[u8]) -> (r: Result<TargetType, TargetError>)
    ensures
        r matches Ok(t) ==> spec_resolve_urn(value@) == Ok::<TargetTypeV, TargetError>(t@),
        r matches Err(e) ==> spec_resolve_urn(value@) == Err::<TargetTypeV, TargetError>(e),
{
    if bytes_as_str(value).is_none() {
        return Err(TargetError::InvalidUrnUtf8);
    }
    proof {
        lemma_chunks_valid(value@);
    }
    let (schema, rest1) = next_chunk(value);
    let r1 = match rest1 {
        Some(r) => r,
        None => {
            return Err(TargetError::MissingClass);
        },
    };
    proof {
        lemma_chunks_valid(r1@);
    }
    let (class, rest2) = next_chunk(r1);
    let r2 = match rest2 {
        Some(r) => r,
        None => {
            return Err(TargetError::MissingType);
        },
    };
    proof {
        lemma_chunks_valid(r2@);
    }
    let (tname, rest3) = next_chunk(r2);
    let r3 = match rest3 {
        Some(r) => r,
        None => {
            return Err(TargetError::MissingVersion);
        },
    };
    let (vstr, rest4) = next_chunk(r3);
    let ver = match crate::bytes::parse_unsigned_bounded(vstr, 255) {
        Some(n) => match Version::from_u8(n as u8) {
            Some(v) => v,
            None => {
                return Err(TargetError::InvalidVersion);
            },
        },
        None => {
            return Err(TargetError::InvalidVersion);
        },
    };
    if rest4.is_some() {
        return Err(TargetError::InvalidFormat);
    }
    if bytes_eq(class, URN_DEVICE_VALUE.as_bytes()) {
        let schema_str = match bytes_as_str(schema) {
            Some(s) => s,
            None => {
                return Err(TargetError::InvalidUrnUtf8);
            },
        };
        let tname_str = match bytes_as_str(tname) {
            Some(s) => s,
            None => {
                return Err(TargetError::InvalidUrnUtf8);
            },
        };
        if bytes_eq(schema, UPNP_SCHEMA_VALUE.as_bytes()) {
            let dev = DeviceType::new(schema_str, tname_str, ver);
            Ok(TargetType::Device(dev))
        } else {
            Err(TargetError::UnsupportedSchema)
        }
    } else if bytes_eq(class, URN_SERVICE_VALUE.as_bytes()) {
        let service = ServiceType::new("", "", ver);
        Ok(TargetType::Service(service))
    } else {
        Err(TargetError::InvalidTargetClass)
    }
}

/// The chunking of a byte string built as a colon-free head, a colon, and a
/// tail: the head is the first chunk and the tail is the rest.
proof fn lemma_chunks_of_concat(a: Seq<u8>, b: Seq<u8>)
    requires
        forall|i: int| 0 <= i < a.len() ==> a[i] != COLON,
    ensures
        first_chunk(a + seq![COLON] + b) == a,
        rest_after(a + seq![COLON] + b) == Some(b),
{
    let s = a + seq![COLON] + b;
    s.index_of_first_ensures(COLON);
    assert(s[a.len() as int] == COLON);
    assert(s.contains(COLON));
    match s.index_of_first(COLON) {
        Some(k) => {
            assert(k >= a.len()) by {
                if k < a.len() {
                    assert(s[k] == a[k]);
                }
            }
            assert(k <= a.len()) by {
                if k > a.len() {
                    assert(s[a.len() as int] != COLON);
                }
            }
            assert(s.take(a.len() as int) =~= a);
            assert(s.skip(a.len() as int + 1) =~= b);
        },
        None => {
            assert(false);
        },
    }
}

/// The chunking of a colon-free byte string: it is its own first chunk and
/// nothing follows.
proof fn lemma_chunks_of_whole(a: Seq<u8>)
    requires
        forall|i: int| 0 <= i < a.len() ==> a[i] != COLON,
    ensures
        first_chunk(a) == a,
        rest_after(a) is None,
{
    a.index_of_first_ensures(COLON);
    match a.index_of_first(COLON) {
        Some(k) => {
            assert(a[k] != COLON);
            assert(false);
        },
        None => {},
    }
}

/// The bytes of an ASCII string literal, pointwise: its characters narrowed
/// to bytes.
proof fn lemma_literal_bytes(s: &str)
    requires
        vstd::utf8::is_ascii_chars(s@),
    ensures
        s.spec_bytes().len() == s@.len(),
        forall|i: int| 0 <= i < s@.len() ==> s.spec_bytes()[i] == s@[i] as u8,
        valid_utf8(s.spec_bytes()),
{
    vstd::utf8::is_ascii_chars_encode_utf8(s@);
    vstd::utf8::encode_utf8_valid_utf8(s@);
}

/// The URN naming a device of the standard schema: the schema, the `device`
/// class, a type name and a version digit, colon-separated.
pub open spec fn spec_device_urn(name: Seq<u8>, digit: u8) -> Seq<u8> {
    UPNP_SCHEMA_VALUE.spec_bytes() + seq![COLON] + (URN_DEVICE_VALUE.spec_bytes() + seq![COLON] + (
    name + seq![COLON, digit]))
}

/// Round-trip target parsing: a URN of the standard schema and device class
/// whose type name holds no colon and whose version is a digit naming one of
/// the five known versions always resolves to a device target — the device
/// type the registry gives the name, an unrecognized name resolving to an
/// unimplemented device carrying that name — and never to an error.
pub proof fn lemma_standard_device_urn_resolves(name: Seq<u8>, digit: u8)
    requires
        valid_utf8(name),
        forall|i: int| 0 <= i < name.len() ==> name[i] != COLON,
        49 <= digit <= 53,
    ensures
        spec_resolve_urn(spec_device_urn(name, digit)) == Ok::<TargetTypeV, TargetError>(
            TargetTypeV::Device(
                spec_match_vendor_name(name, spec_version_from_u8((digit - 48) as u8)->Some_0),
            ),
        ),
{
    let schema = UPNP_SCHEMA_VALUE.spec_bytes();
    let class = URN_DEVICE_VALUE.spec_bytes();
    let tailv = seq![COLON, digit];
    let r2 = name + tailv;
    let r1 = class + seq![COLON] + r2;
    let v = schema + seq![COLON] + r1;
    reveal_strlit("schemas-upnp-org");
    reveal_strlit("device");
    assert(vstd::utf8::is_ascii_chars(UPNP_SCHEMA_VALUE@));
    assert(vstd::utf8::is_ascii_chars(URN_DEVICE_VALUE@));
    lemma_literal_bytes(UPNP_SCHEMA_VALUE);
    lemma_literal_bytes(URN_DEVICE_VALUE);
    // the whole URN is valid UTF-8: every piece is
    assert(valid_utf8(v)) by {
        crate::bytes::lemma_ascii_is_valid_utf8(tailv);
        vstd::utf8::valid_utf8_concat(name, tailv);
        crate::bytes::lemma_ascii_is_valid_utf8(seq![COLON]);
        vstd::utf8::valid_utf8_concat(seq![COLON], r2);
        vstd::utf8::valid_utf8_concat(class, seq![COLON] + r2);
        assert(r1 =~= class + (seq![COLON] + r2));
        vstd::utf8::valid_utf8_concat(seq![COLON], r1);
        vstd::utf8::valid_utf8_concat(schema, seq![COLON] + r1);
        assert(v =~= schema + (seq![COLON] + r1));
    }
    // the colon-separated chunks are the schema, the class, the name and
    // the version digit
    assert(forall|i: int| 0 <= i < schema.len() ==> schema[i] != COLON);
    assert(forall|i: int| 0 <= i < class.len() ==> class[i] != COLON);
    lemma_chunks_of_concat(schema, r1);
    lemma_chunks_of_concat(class, r2);
    assert(first_chunk(v) == schema && rest_after(v) == Some(r1));
    assert(first_chunk(r1) == class && rest_after(r1) == Some(r2));
    assert(r2 =~= name + seq![COLON] + seq![digit]);
    lemma_chunks_of_concat(name, seq![digit]);
    assert(first_chunk(r2) == name && rest_after(r2) == Some(seq![digit]));
    let r3 = seq![digit];
    assert(forall|i: int| 0 <= i < r3.len() ==> r3[i] != COLON);
    lemma_chunks_of_whole(r3);
    // the version digit names a known version
    assert(spec_version_from_bytes(r3) == spec_version_from_u8((digit - 48) as u8)) by {
        reveal_with_fuel(crate::bytes::dec_value, 2);
        assert(crate::bytes::all_dec_digits(r3));
        assert(r3.drop_last() =~= Seq::<u8>::empty());
        assert(crate::bytes::dec_value(Seq::<u8>::empty()) == 0);
        assert(crate::bytes::dec_value(r3) == (digit - 48) as nat);
        assert(crate::bytes::spec_parse_unsigned(r3) == Some((digit - 48) as nat));
    }
    assert(spec_version_from_u8((digit - 48) as u8) is Some);
}

} // verus!
