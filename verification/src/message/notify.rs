//! The notification messages: alive, update and byebye, with the cross-field
//! validation the standard demands of each.

use vstd::prelude::*;
use vstd::string::StringSliceAdditionalSpecFns;
use vstd::utf8::{encode_utf8, valid_utf8};

use crate::bytes::{bytes_as_str, bytes_eq, find_byte, parse_unsigned_bounded,
    spec_parse_unsigned};
use crate::field::{spec_encode_field, spec_parse_field, FieldPair, FieldView};
use crate::forum::{spec_resolve_target, TargetType, TargetTypeV};
use crate::forum::query::{GenericQuery, QueryType};
use crate::header::{seq_views, spec_parse_nt, spec_parse_nts, spec_parse_usn, spec_parse_usn_bytes,
    spec_values_of,
    HeaderMap, NT, NTS, USN};
use crate::message::{infer_version, location_parses_as_url, spec_infer_version, spec_v11_ext,
    url_parse_accepts, AliveExtV11Impl, AliveVersion, AliveVersionV, MessageExt,
    MESSAGE_MULTICAST_HOST, };
use crate::{HeaderName, SSDPError, SSDPResult, SimpleError, SimpleResult};

verus! {

/// The ASCII comma, the separator of cache-control directives.
pub const COMMA: u8 = 44;

/// The bytes of the HOST header name.
pub open spec fn host_name_bytes() -> Seq<u8> {
    "HOST".spec_bytes()
}

/// The bytes of the CACHE-CONTROL header name.
pub open spec fn cache_control_name_bytes() -> Seq<u8> {
    "CACHE-CONTROL".spec_bytes()
}

/// The bytes of the LOCATION header name.
pub open spec fn location_name_bytes() -> Seq<u8> {
    "LOCATION".spec_bytes()
}

/// The bytes of the SERVER header name.
pub open spec fn server_name_bytes() -> Seq<u8> {
    "SERVER".spec_bytes()
}

/// The bytes of the NT header name.
pub open spec fn nt_name_bytes() -> Seq<u8> {
    "NT".spec_bytes()
}

/// The bytes of the NTS header name.
pub open spec fn nts_name_bytes() -> Seq<u8> {
    "NTS".spec_bytes()
}

/// The bytes of the USN header name.
pub open spec fn usn_name_bytes() -> Seq<u8> {
    "USN".spec_bytes()
}

/// The value of a field that must appear exactly once.
pub open spec fn spec_single_value(h: Seq<(Seq<u8>, Seq<u8>)>, name: Seq<u8>) -> Option<Seq<u8>> {
    if spec_values_of(h, name).len() == 1 {
        Some(spec_values_of(h, name)[0])
    } else {
        None
    }
}

/// The view of an optional field pair.
pub open spec fn opt_field_view(o: Option<FieldPair>) -> Option<FieldView> {
    match o {
        Some(f) => Some(f@),
        None => None,
    }
}

/// The NT/USN consistency rules.  The first USN part must be a UUID.  When
/// NT is itself a UUID it must equal that part byte for byte and the USN
/// must carry no second part; otherwise the USN's second part must be
/// present and structurally equal to NT.  Any deviation is an invalid-header
/// error naming USN or NT.
pub open spec fn spec_check_nt_usn(
    nt: FieldView,
    usn_uuid: FieldView,
    usn_type: Option<FieldView>,
) -> Result<(), SSDPError> {
    match usn_uuid {
        FieldView::UUID(uuid) => match nt {
            FieldView::UUID(n) => if n != uuid {
                Err(SSDPError::InvalidHeader(HeaderName::Nt))
            } else if usn_type is Some {
                Err(SSDPError::InvalidHeader(HeaderName::Usn))
            } else {
                Ok(())
            },
            _ => match usn_type {
                Some(u) => spec_compare_nt_usn(nt, u),
                None => Err(SSDPError::InvalidHeader(HeaderName::Usn)),
            },
        },
        _ => Err(SSDPError::InvalidHeader(HeaderName::Usn)),
    }
}

/// Comparison of NT with the second USN part: both must be URN or both UPnP
/// with equal payloads.
pub open spec fn spec_compare_nt_usn(nt: FieldView, usn_type: FieldView) -> Result<
    (),
    SSDPError,
> {
    match (nt, usn_type) {
        (FieldView::URN(n), FieldView::URN(u)) => if n != u {
            Err(SSDPError::InvalidHeader(HeaderName::Nt))
        } else {
            Ok(())
        },
        (FieldView::UPnP(n), FieldView::UPnP(u)) => if n != u {
            Err(SSDPError::InvalidHeader(HeaderName::Nt))
        } else {
            Ok(())
        },
        _ => Err(SSDPError::InvalidHeader(HeaderName::Nt)),
    }
}

/// Apply rules to NT and second field of USN to check if they are both URN
/// or UPnP variants, and if so, compare their values.
fn compare_nt_usn(nt: &FieldPair, usn_type: &FieldPair) -> (r: SSDPResult<()>)
    ensures
        r == spec_compare_nt_usn(nt@, usn_type@),
{
    match (nt, usn_type) {
        (FieldPair::URN(n), FieldPair::URN(u)) => {
            if !bytes_eq(n.as_slice(), u.as_slice()) {
                Err(SSDPError::InvalidHeader(HeaderName::Nt))
            } else {
                Ok(())
            }
        },
        (FieldPair::UPnP(n), FieldPair::UPnP(u)) => {
            if !bytes_eq(n.as_slice(), u.as_slice()) {
                Err(SSDPError::InvalidHeader(HeaderName::Nt))
            } else {
                Ok(())
            }
        },
        _ => Err(SSDPError::InvalidHeader(HeaderName::Nt)),
    }
}

/// Returns an error if the rules for the relationship between the NT and USN
/// fields are not adhered to.
pub fn check_nt_usn_rules(nt: &FieldPair, usn_uuid: &FieldPair, usn_type: &Option<FieldPair>) -> (r:
    SSDPResult<()>)
    ensures
        r == spec_check_nt_usn(nt@, usn_uuid@, opt_field_view(*usn_type)),
{
    let uuid: &Vec<u8> = match usn_uuid {
        FieldPair::UUID(n) => n,
        _ => {
            return Err(SSDPError::InvalidHeader(HeaderName::Usn));
        },
    };
    match nt {
        FieldPair::UUID(n) => {
            if !bytes_eq(n.as_slice(), uuid.as_slice()) {
                Err(SSDPError::InvalidHeader(HeaderName::Nt))
            } else if usn_type.is_some() {
                Err(SSDPError::InvalidHeader(HeaderName::Usn))
            } else {
                Ok(())
            }
        },
        _ => {
            match usn_type {
                Some(u) => compare_nt_usn(nt, u),
                None => Err(SSDPError::InvalidHeader(HeaderName::Usn)),
            }
        },
    }
}

/// Whether a byte is linear whitespace: a space or a horizontal tab.
pub open spec fn is_lws(b: u8) -> bool {
    b == 32 || b == 9
}

/// `s` with its leading whitespace dropped.
pub open spec fn trim_start_bytes(s: Seq<u8>) -> Seq<u8>
    decreases s.len(),
{
    if s.len() > 0 && is_lws(s[0]) {
        trim_start_bytes(s.drop_first())
    } else {
        s
    }
}

/// `s` with its trailing whitespace dropped.
pub open spec fn trim_end_bytes(s: Seq<u8>) -> Seq<u8>
    decreases s.len(),
{
    if s.len() > 0 && is_lws(s.last()) {
        trim_end_bytes(s.drop_last())
    } else {
        s
    }
}

/// `s` with whitespace dropped at both ends.
pub open spec fn trim_bytes(s: Seq<u8>) -> Seq<u8> {
    trim_end_bytes(trim_start_bytes(s))
}

/// Drop whitespace at both ends of a byte string.
fn trim(s: &[u8]) -> (r: &[u8])
    ensures
        r@ == trim_bytes(s@),
{
    let n = s.len();
    let mut start: usize = 0;
    assert(s@.skip(0) =~= s@);
    while start < n && (s[start] == 32 || s[start] == 9)
        invariant
            n == s@.len(),
            0 <= start <= n,
            trim_start_bytes(s@) == trim_start_bytes(s@.skip(start as int)),
        decreases n - start,
    {
        proof {
            assert(s@.skip(start as int)[0] == s@[start as int]);
            assert(s@.skip(start as int).drop_first() =~= s@.skip(start + 1));
        }
        start += 1;
    }
    assert(trim_start_bytes(s@.skip(start as int)) == s@.skip(start as int));
    let mut end: usize = n;
    assert(s@.skip(start as int) =~= s@.subrange(start as int, n as int));
    while end > start && (s[end - 1] == 32 || s[end - 1] == 9)
        invariant
            n == s@.len(),
            0 <= start <= end <= n,
            trim_start_bytes(s@) == s@.skip(start as int),
            trim_end_bytes(s@.skip(start as int)) == trim_end_bytes(
                s@.subrange(start as int, end as int),
            ),
        decreases end,
    {
        proof {
            let cur = s@.subrange(start as int, end as int);
            assert(cur.last() == s@[end - 1]);
            assert(cur.drop_last() =~= s@.subrange(start as int, end - 1));
        }
        end -= 1;
    }
    proof {
        let cur = s@.subrange(start as int, end as int);
        if cur.len() > 0 {
            assert(cur.last() == s@[end - 1]);
        }
        assert(trim_end_bytes(cur) == cur);
    }
    let r = vstd::slice::slice_subrange(s, start, end);
    assert(r@ =~= s@.subrange(start as int, end as int));
    r
}

/// The max-age a single cache directive carries, if it is a max-age
/// directive with a valid unsigned 32-bit value (after trimming whitespace).
pub open spec fn spec_directive_max_age(d: Seq<u8>) -> Option<u32> {
    let t = trim_bytes(d);
    if t.len() >= 8 && t.take(8) == "max-age=".spec_bytes() {
        match spec_parse_unsigned(t.skip(8)) {
            Some(n) => if n <= 0xFFFF_FFFF {
                Some(n as u32)
            } else {
                None
            },
            None => None,
        }
    } else {
        None
    }
}

/// The max-age a single cache directive carries.
fn directive_max_age(d: &[u8]) -> (r: Option<u32>)
    ensures
        r == spec_directive_max_age(d@),
{
    let t = trim(d);
    let n = t.len();
    if n < 8 {
        return None;
    }
    let prefix = vstd::slice::slice_subrange(t, 0, 8);
    assert(prefix@ =~= trim_bytes(d@).take(8));
    if !bytes_eq(prefix, "max-age=".as_bytes()) {
        return None;
    }
    let digits = vstd::slice::slice_subrange(t, 8, n);
    assert(digits@ =~= trim_bytes(d@).skip(8));
    match parse_unsigned_bounded(digits, 0xFFFF_FFFF) {
        Some(v) => Some(v as u32),
        None => None,
    }
}

/// The index of the first comma of `v`, if any.
pub open spec fn first_comma(v: Seq<u8>) -> Option<int>
    decreases v.len(),
{
    if v.len() == 0 {
        None
    } else if v[0] == COMMA {
        Some(0)
    } else {
        match first_comma(v.drop_first()) {
            Some(i) => Some(i + 1),
            None => None,
        }
    }
}

/// What [`first_comma`] finds: the earliest comma.
proof fn lemma_first_comma(v: Seq<u8>)
    ensures
        match first_comma(v) {
            Some(i) => 0 <= i < v.len() && v[i] == COMMA && forall|j: int|
                0 <= j < i ==> v[j] != COMMA,
            None => forall|j: int| 0 <= j < v.len() ==> v[j] != COMMA,
        },
    decreases v.len(),
{
    if v.len() == 0 {
    } else if v[0] == COMMA {
    } else {
        let t = v.drop_first();
        lemma_first_comma(t);
        match first_comma(t) {
            Some(i) => {
                assert forall|j: int| 0 <= j < i + 1 implies v[j] != COMMA by {
                    if j > 0 {
                        assert(t[j - 1] == v[j]);
                        assert(t[j - 1] != COMMA);
                    }
                }
            },
            None => {
                assert forall|j: int| 0 <= j < v.len() implies v[j] != COMMA by {
                    if j > 0 {
                        assert(t[j - 1] == v[j]);
                        assert(t[j - 1] != COMMA);
                    }
                }
            },
        }
    }
}

/// The first max-age directive of a comma-separated cache-control line.
pub open spec fn spec_line_max_age(line: Seq<u8>) -> Option<u32>
    decreases line.len(),
{
    match first_comma(line) {
        None => spec_directive_max_age(line),
        Some(i) => match spec_directive_max_age(line.take(i)) {
            Some(v) => Some(v),
            None => if 0 <= i < line.len() {
                spec_line_max_age(line.skip(i + 1))
            } else {
                None
            },
        },
    }
}

/// The first max-age directive of a cache-control line.
fn line_max_age(line: &[u8]) -> (r: Option<u32>)
    ensures
        r == spec_line_max_age(line@),
{
    let mut rest: &[u8] = line;
    let ghost whole = line@;
    loop
        invariant
            whole == line@,
            spec_line_max_age(whole) == spec_line_max_age(rest@),
        decreases rest@.len(),
    {
        let n = rest.len();
        match find_byte(rest, COMMA) {
            None => {
                proof {
                    lemma_first_comma(rest@);
                    match first_comma(rest@) {
                        Some(k) => {
                            assert(rest@[k] != COMMA);
                            assert(false);
                        },
                        None => {},
                    }
                }
                return directive_max_age(rest);
            },
            Some(i) => {
                proof {
                    lemma_first_comma(rest@);
                    assert(rest@[i as int] == COMMA);
                    match first_comma(rest@) {
                        Some(k) => {
                            assert(k >= i as int) by {
                                if k < i as int {
                                    assert(rest@[k] != COMMA);
                                }
                            }
                            assert(k <= i as int) by {
                                if k > i as int {
                                    assert(rest@[i as int] != COMMA);
                                }
                            }
                            assert(first_comma(rest@) == Some(i as int));
                        },
                        None => {
                            assert(false);
                        },
                    }
                }
                let d = vstd::slice::slice_subrange(rest, 0, i);
                assert(d@ =~= rest@.take(i as int));
                match directive_max_age(d) {
                    Some(v) => {
                        return Some(v);
                    },
                    None => {},
                }
                let next = vstd::slice::slice_subrange(rest, i + 1, n);
                assert(next@ =~= rest@.skip(i + 1));
                rest = next;
            },
        }
    }
}

/// The first max-age directive found in the cache-control lines; duplicates
/// after the first are ignored.
pub open spec fn spec_first_max_age(lines: Seq<Seq<u8>>) -> Option<u32>
    decreases lines.len(),
{
    if lines.len() == 0 {
        None
    } else {
        match spec_line_max_age(lines[0]) {
            Some(v) => Some(v),
            None => spec_first_max_age(lines.drop_first()),
        }
    }
}

/// Returns the first max-age directive found in the cache-control lines.
fn first_max_age(lines: &Vec<Vec<u8>>) -> (r: Option<u32>)
    ensures
        r == spec_first_max_age(seq_views(lines@)),
{
    let n = lines.len();
    let mut i: usize = 0;
    assert(seq_views(lines@).skip(0) =~= seq_views(lines@));
    while i < n
        invariant
            n == lines@.len(),
            0 <= i <= n,
            spec_first_max_age(seq_views(lines@)) == spec_first_max_age(
                seq_views(lines@).skip(i as int),
            ),
        decreases n - i,
    {
        proof {
            assert(seq_views(lines@).skip(i as int)[0] == lines@[i as int]@);
            assert(seq_views(lines@).skip(i as int).drop_first() =~= seq_views(lines@).skip(
                i + 1,
            ));
        }
        match line_max_age(lines[i].as_slice()) {
            Some(v) => {
                return Some(v);
            },
            None => {},
        }
        i += 1;
    }
    assert(seq_views(lines@).skip(n as int) =~= Seq::<Seq<u8>>::empty());
    None
}

/// The validated parts of an alive or update announcement.
pub ghost struct AlivePartsV {
    /// The inferred protocol revision with its extension fields.
    pub version: AliveVersionV,
    /// The advertised lifetime, in seconds.
    pub max_age: u32,
    /// The bytes of the LOCATION value.
    pub location: Seq<u8>,
    /// The resolved notification target.
    pub target: TargetTypeV,
    /// The unique device name: the textual reconstruction of the USN's
    /// first field.
    pub udn: Seq<u8>,
    /// The bytes of the SERVER value.
    pub server: Seq<u8>,
}

/// The value of a field that must appear exactly once and hold UTF-8 text.
pub open spec fn spec_single_utf8_value(h: Seq<(Seq<u8>, Seq<u8>)>, name: Seq<u8>) -> Option<
    Seq<u8>,
> {
    match spec_single_value(h, name) {
        Some(v) => if valid_utf8(v) {
            Some(v)
        } else {
            None
        },
        None => None,
    }
}

/// The validation an alive or update announcement must pass, in order: the
/// mandatory headers are extracted (HOST, CACHE-CONTROL, LOCATION, NT, USN;
/// one that is absent, repeated or unreadable counts as missing), the HOST
/// value must name the multicast rendezvous, NT and USN must be consistent,
/// the SERVER value must imply a protocol revision whose extension fields
/// are present, CACHE-CONTROL must carry a max-age directive, and the
/// LOCATION value must parse as a URL; the NT target is then resolved.
pub open spec fn spec_alive_pieces(h: Seq<(Seq<u8>, Seq<u8>)>) -> Result<AlivePartsV, SSDPError> {
    match spec_single_value(h, host_name_bytes()) {
        None => Err(SSDPError::MissingHeader(HeaderName::Host)),
        Some(host) => if spec_values_of(h, cache_control_name_bytes()).len() == 0 {
            Err(SSDPError::MissingHeader(HeaderName::CacheControl))
        } else {
            match spec_single_utf8_value(h, location_name_bytes()) {
                None => Err(SSDPError::MissingHeader(HeaderName::Location)),
                Some(loc) => match spec_parse_nt(spec_values_of(h, nt_name_bytes())) {
                    None => Err(SSDPError::MissingHeader(HeaderName::Nt)),
                    Some(nt) => match spec_parse_usn(spec_values_of(h, usn_name_bytes())) {
                        None => Err(SSDPError::MissingHeader(HeaderName::Usn)),
                        Some(usn) => spec_alive_checks(h, host, loc, nt, usn),
                    },
                },
            }
        },
    }
}

/// The checks of [`spec_alive_pieces`] once the mandatory headers are
/// extracted.
pub open spec fn spec_alive_checks(
    h: Seq<(Seq<u8>, Seq<u8>)>,
    host: Seq<u8>,
    loc: Seq<u8>,
    nt: FieldView,
    usn: (FieldView, Option<FieldView>),
) -> Result<AlivePartsV, SSDPError> {
    if host != MESSAGE_MULTICAST_HOST.spec_bytes() {
        Err(SSDPError::InvalidHeader(HeaderName::Host))
    } else {
        match spec_check_nt_usn(nt, usn.0, usn.1) {
            Err(e) => Err(e),
            Ok(_) => match spec_single_utf8_value(h, server_name_bytes()) {
                None => Err(SSDPError::MissingHeader(HeaderName::Server)),
                Some(server) => match spec_infer_version(server, h) {
                    Err(e) => Err(e),
                    Ok(ver) => match spec_first_max_age(
                        spec_values_of(h, cache_control_name_bytes()),
                    ) {
                        None => Err(SSDPError::InvalidHeader(HeaderName::CacheControl)),
                        Some(age) => if !url_parse_accepts(vstd::utf8::decode_utf8(loc)) {
                            Err(SSDPError::InvalidHeader(HeaderName::Location))
                        } else {
                            match spec_resolve_target(nt) {
                                Err(te) => Err(SSDPError::Target(te)),
                                Ok(t) => Ok(
                                    AlivePartsV {
                                        version: ver,
                                        max_age: age,
                                        location: loc,
                                        target: t,
                                        udn: spec_encode_field(usn.0),
                                        server: server,
                                    },
                                ),
                            }
                        },
                    },
                },
            },
        }
    }
}

/// The validated parts of an alive or update announcement, as values.
struct AliveParts {
    version: AliveVersion,
    max_age: u32,
    location: String,
    target: TargetType,
    udn: Vec<u8>,
    server: String,
}

/// Whether the executable parts carry the values of the validated parts.
spec fn alive_parts_match(p: AliveParts, v: AlivePartsV) -> bool {
    &&& p.version@ == v.version
    &&& p.max_age == v.max_age
    &&& encode_utf8(p.location@) == v.location
    &&& p.target@ == v.target
    &&& p.udn@ == v.udn
    &&& encode_utf8(p.server@) == v.server
}

/// Delegate for the creation process of an alive or update message.
fn alive_pieces(headers: &HeaderMap) -> (r: SSDPResult<AliveParts>)
    ensures
        r matches Ok(p) ==> spec_alive_pieces(headers@) matches Ok(v) && alive_parts_match(p, v),
        r matches Err(e) ==> spec_alive_pieces(headers@) == Err::<AlivePartsV, SSDPError>(e),
{
    // Extract required headers
    let host_lines = headers.values_of("HOST".as_bytes());
    if host_lines.len() != 1 {
        return Err(SSDPError::MissingHeader(HeaderName::Host));
    }
    assert(seq_views(host_lines@)[0] == host_lines@[0]@);
    let cc_lines = headers.values_of("CACHE-CONTROL".as_bytes());
    if cc_lines.len() == 0 {
        return Err(SSDPError::MissingHeader(HeaderName::CacheControl));
    }
    let loc_lines = headers.values_of("LOCATION".as_bytes());
    if loc_lines.len() != 1 {
        return Err(SSDPError::MissingHeader(HeaderName::Location));
    }
    assert(seq_views(loc_lines@)[0] == loc_lines@[0]@);
    let loc_str = match bytes_as_str(loc_lines[0].as_slice()) {
        Some(s) => s,
        None => {
            return Err(SSDPError::MissingHeader(HeaderName::Location));
        },
    };
    let nt_lines = headers.values_of("NT".as_bytes());
    let nt = match NT::parse_header(nt_lines.as_slice()) {
        Some(n) => n.0,
        None => {
            return Err(SSDPError::MissingHeader(HeaderName::Nt));
        },
    };
    let usn_lines = headers.values_of("USN".as_bytes());
    let usn = match USN::parse_header(usn_lines.as_slice()) {
        Some(u) => u,
        None => {
            return Err(SSDPError::MissingHeader(HeaderName::Usn));
        },
    };
    // Validate portions of the message
    if !bytes_eq(host_lines[0].as_slice(), MESSAGE_MULTICAST_HOST.as_bytes()) {
        return Err(SSDPError::InvalidHeader(HeaderName::Host));
    }
    match check_nt_usn_rules(&nt, &usn.0, &usn.1) {
        Err(e) => {
            return Err(e);
        },
        Ok(_) => {},
    }
    // Create the alive pieces
    let server_lines = headers.values_of("SERVER".as_bytes());
    if server_lines.len() != 1 {
        return Err(SSDPError::MissingHeader(HeaderName::Server));
    }
    assert(seq_views(server_lines@)[0] == server_lines@[0]@);
    let server_str = match bytes_as_str(server_lines[0].as_slice()) {
        Some(s) => s,
        None => {
            return Err(SSDPError::MissingHeader(HeaderName::Server));
        },
    };
    let version = match infer_version(server_lines[0].as_slice(), headers) {
        Ok(v) => v,
        Err(e) => {
            return Err(e);
        },
    };
    let max_age = match first_max_age(&cc_lines) {
        Some(v) => v,
        None => {
            return Err(SSDPError::InvalidHeader(HeaderName::CacheControl));
        },
    };
    proof {
        vstd::utf8::encode_utf8_decode_utf8(loc_str@);
    }
    if !location_parses_as_url(loc_str) {
        return Err(SSDPError::InvalidHeader(HeaderName::Location));
    }
    let target = match TargetType::new(&nt) {
        Ok(t) => t,
        Err(te) => {
            return Err(SSDPError::Target(te));
        },
    };
    let udn = usn.0.to_bytes();
    proof {
        vstd::utf8::encode_utf8_decode_utf8(server_str@);
    }
    Ok(
        AliveParts {
            version,
            max_age,
            location: loc_str.to_owned(),
            target,
            udn,
            server: server_str.to_owned(),
        },
    )
}

/// Whether an alive-style message carries the values of the validated parts.
pub open spec fn alive_message_matches(m: AliveMessage, v: AlivePartsV) -> bool {
    &&& m.spec_version() == v.version
    &&& m.spec_max_age() == v.max_age
    &&& encode_utf8(m.spec_location()) == v.location
    &&& m.spec_target() == v.target
    &&& m.spec_udn() == v.udn
    &&& encode_utf8(m.spec_server()) == v.server
}

/// Whether a message may be considered expired, given the advertised
/// lifetime in seconds and the time elapsed since its construction in
/// nanoseconds: expiry is strict, so a lifetime of zero expires as soon as
/// any time has passed.
pub open spec fn spec_expired(max_age: u32, elapsed_nanos: u128) -> bool {
    elapsed_nanos > max_age * 1_000_000_000
}

/// Represents an announcement made by some UPnP enabled device.
#[derive(Debug)]
pub struct AliveMessage {
    headers: HeaderMap,
    created: std::time::Instant,
    version: AliveVersion,
    max_age: u32,
    location: String,
    target: TargetType,
    udn: Vec<u8>,
    server: String,
}

impl AliveMessage {
    /// The header block this message was built from.
    pub closed spec fn spec_headers(&self) -> Seq<(Seq<u8>, Seq<u8>)> {
        self.headers@
    }

    /// The inferred protocol revision with its extension fields.
    pub closed spec fn spec_version(&self) -> AliveVersionV {
        self.version@
    }

    /// The advertised lifetime, in seconds.
    pub closed spec fn spec_max_age(&self) -> u32 {
        self.max_age
    }

    /// The characters of the LOCATION value.
    pub closed spec fn spec_location(&self) -> Seq<char> {
        self.location@
    }

    /// The resolved notification target.
    pub closed spec fn spec_target(&self) -> TargetTypeV {
        self.target@
    }

    /// The unique device name.
    pub closed spec fn spec_udn(&self) -> Seq<u8> {
        self.udn@
    }

    /// The characters of the SERVER value.
    pub closed spec fn spec_server(&self) -> Seq<char> {
        self.server@
    }

    /// Create a new AliveMessage from the given headers, stamped with the
    /// monotonic clock.
    pub fn new(headers: HeaderMap) -> (r: SSDPResult<AliveMessage>)
        ensures
            r matches Ok(m) ==> spec_alive_pieces(headers@) matches Ok(v) && alive_message_matches(
                m,
                v,
            ) && m.spec_headers() == headers@ && m.spec_udn().len() >= 5,
            r matches Err(e) ==> spec_alive_pieces(headers@) == Err::<AlivePartsV, SSDPError>(e),
    {
        let parts = match alive_pieces(&headers) {
            Ok(p) => p,
            Err(e) => {
                return Err(e);
            },
        };
        proof {
            lemma_udn_min_len(spec_alive_pieces(headers@)->Ok_0.udn);
        }
        Ok(
            AliveMessage {
                headers,
                created: std::time::Instant::now(),
                version: parts.version,
                max_age: parts.max_age,
                location: parts.location,
                target: parts.target,
                udn: parts.udn,
                server: parts.server,
            },
        )
    }

    /// Whether this message would count as expired after `elapsed_nanos`
    /// nanoseconds: strictly more time than the advertised lifetime.
    pub fn expired_after_nanos(&self, elapsed_nanos: u128) -> (r: bool)
        ensures
            r == spec_expired(self.spec_max_age(), elapsed_nanos),
    {
        let threshold: u128 = (self.max_age as u128) * 1_000_000_000;
        elapsed_nanos > threshold
    }

    /// Whether or not the cache control for this message has expired: the
    /// monotonic time elapsed since construction exceeds the advertised
    /// lifetime.  The clock reading is the only unspecified input; the
    /// comparison itself is [`Self::expired_after_nanos`].
    pub fn is_expired(&self) -> bool {
        let elapsed = self.created.elapsed();
        self.expired_after_nanos(elapsed.as_nanos())
    }

    /// Maximum time in seconds for which this alive message is valid unless
    /// a shutdown (ByeByeMessage) is received prior.
    ///
    /// This is the initial duration sent, not the duration left (use
    /// is_expired).
    pub fn max_age(&self) -> (r: u32)
        ensures
            r == self.spec_max_age(),
    {
        self.max_age
    }

    /// Contains environment information from which the message originated.
    /// Message will be in the form "OS/version UPnP/version product/version".
    pub fn server_info(&self) -> (r: &str)
        ensures
            r@ == self.spec_server(),
    {
        self.server.as_str()
    }

    /// UPnP version information containing additional fields for clients to
    /// utilize.
    pub fn version(&self) -> (r: &AliveVersion)
        ensures
            r@ == self.spec_version(),
    {
        &self.version
    }

    /// Query object associated with this message for obtaining a remote
    /// object that can be used to invoke remote procedure calls on the
    /// device.
    ///
    /// Service targets are unsupported: the service query path is not
    /// implemented, and asking for one is an error rather than a hard stop.
    pub fn query(&self) -> (r: SimpleResult<QueryType>)
        ensures
            self.spec_target() is Service <==> r is Err,
            r matches Ok(q) ==> query_matches(q, self.spec_target(), self.spec_location(), self.spec_udn()),
    {
        match &self.target {
            TargetType::Service(_) => Err(
                SimpleError::new("Service Queries Are Unimplemented"),
            ),
            _ => Ok(build_query(&self.location, &self.udn, &self.target)),
        }
    }
}

impl MessageExt for AliveMessage {
    open spec fn spec_message_headers(&self) -> Seq<(Seq<u8>, Seq<u8>)> {
        self.spec_headers()
    }

    fn check_header(&self, name: &[u8]) -> (r: Option<Vec<Vec<u8>>>) {
        self.headers.check_raw(name)
    }
}

/// Whether a query object carries a message's target, location and device
/// name.
pub open spec fn query_matches(
    q: QueryType,
    target: TargetTypeV,
    location: Seq<char>,
    udn: Seq<u8>,
) -> bool {
    &&& q.spec_query().spec_udn() == udn
    &&& q.spec_query().spec_url() == location
    &&& (target is Root ==> q is Root)
    &&& (target is UUID ==> q is UUID)
    &&& (target matches TargetTypeV::Device(d) ==> q matches QueryType::Device(dq)
        && dq.spec_dev_type() == d)
}

/// Build the query object of a message from its location, device name and
/// target.
fn build_query(location: &String, udn: &Vec<u8>, target: &TargetType) -> (r: QueryType)
    requires
        !(target@ is Service),
    ensures
        query_matches(r, target@, location@, udn@),
{
    let gq = GenericQuery::new(
        location.clone(),
        crate::bytes::sub_to_vec(udn.as_slice(), 0, udn.len()),
    );
    assert(gq.spec_udn() =~= udn@);
    QueryType::new(gq, target.clone())
}

/// The textual reconstruction of a USN first field is at least five bytes:
/// its `uuid` key and the colon.
proof fn lemma_udn_min_len(udn: Seq<u8>)
    requires
        exists|v: Seq<u8>| udn == spec_encode_field(FieldView::UUID(v)),
    ensures
        udn.len() >= 5,
{
    reveal_strlit("uuid");
    assert(vstd::utf8::is_ascii_chars("uuid"@));
    vstd::utf8::is_ascii_chars_encode_utf8("uuid"@);
    assert(crate::field::uuid_key().len() == 4);
}

/// Represents a message signifying that a device updated one or more of its
/// devices or services on the network.  It carries the same mandatory
/// headers as an alive announcement and passes the same validation.
#[derive(Debug)]
pub struct UpdateMessage {
    headers: HeaderMap,
    created: std::time::Instant,
    version: AliveVersion,
    max_age: u32,
    location: String,
    target: TargetType,
    udn: Vec<u8>,
    server: String,
}

/// Whether an update message carries the values of the validated parts.
pub open spec fn update_message_matches(m: UpdateMessage, v: AlivePartsV) -> bool {
    &&& m.spec_version() == v.version
    &&& m.spec_max_age() == v.max_age
    &&& encode_utf8(m.spec_location()) == v.location
    &&& m.spec_target() == v.target
    &&& m.spec_udn() == v.udn
    &&& encode_utf8(m.spec_server()) == v.server
}

impl UpdateMessage {
    /// The header block this message was built from.
    pub closed spec fn spec_headers(&self) -> Seq<(Seq<u8>, Seq<u8>)> {
        self.headers@
    }

    /// The inferred protocol revision with its extension fields.
    pub closed spec fn spec_version(&self) -> AliveVersionV {
        self.version@
    }

    /// The advertised lifetime, in seconds.
    pub closed spec fn spec_max_age(&self) -> u32 {
        self.max_age
    }

    /// The characters of the LOCATION value.
    pub closed spec fn spec_location(&self) -> Seq<char> {
        self.location@
    }

    /// The resolved notification target.
    pub closed spec fn spec_target(&self) -> TargetTypeV {
        self.target@
    }

    /// The unique device name.
    pub closed spec fn spec_udn(&self) -> Seq<u8> {
        self.udn@
    }

    /// The characters of the SERVER value.
    pub closed spec fn spec_server(&self) -> Seq<char> {
        self.server@
    }

    /// Create a new UpdateMessage from the given headers, stamped with the
    /// monotonic clock.
    pub fn new(headers: HeaderMap) -> (r: SSDPResult<UpdateMessage>)
        ensures
            r matches Ok(m) ==> spec_alive_pieces(headers@) matches Ok(v) && update_message_matches(
                m,
                v,
            ) && m.spec_headers() == headers@ && m.spec_udn().len() >= 5,
            r matches Err(e) ==> spec_alive_pieces(headers@) == Err::<AlivePartsV, SSDPError>(e),
    {
        let parts = match alive_pieces(&headers) {
            Ok(p) => p,
            Err(e) => {
                return Err(e);
            },
        };
        proof {
            lemma_udn_min_len(spec_alive_pieces(headers@)->Ok_0.udn);
        }
        Ok(
            UpdateMessage {
                headers,
                created: std::time::Instant::now(),
                version: parts.version,
                max_age: parts.max_age,
                location: parts.location,
                target: parts.target,
                udn: parts.udn,
                server: parts.server,
            },
        )
    }

    /// Whether this message would count as expired after `elapsed_nanos`
    /// nanoseconds: strictly more time than the advertised lifetime.
    pub fn expired_after_nanos(&self, elapsed_nanos: u128) -> (r: bool)
        ensures
            r == spec_expired(self.spec_max_age(), elapsed_nanos),
    {
        let threshold: u128 = (self.max_age as u128) * 1_000_000_000;
        elapsed_nanos > threshold
    }

    /// Whether or not the cache control for this message has expired.
    pub fn is_expired(&self) -> bool {
        let elapsed = self.created.elapsed();
        self.expired_after_nanos(elapsed.as_nanos())
    }

    /// Maximum time in seconds for which this update message is valid.
    pub fn max_age(&self) -> (r: u32)
        ensures
            r == self.spec_max_age(),
    {
        self.max_age
    }

    /// Contains environment information from which the message originated.
    pub fn server_info(&self) -> (r: &str)
        ensures
            r@ == self.spec_server(),
    {
        self.server.as_str()
    }

    /// UPnP version information containing additional fields for clients to
    /// utilize.
    pub fn version(&self) -> (r: &AliveVersion)
        ensures
            r@ == self.spec_version(),
    {
        &self.version
    }

    /// Query object associated with this message.  Service targets are
    /// unsupported.
    pub fn query(&self) -> (r: SimpleResult<QueryType>)
        ensures
            self.spec_target() is Service <==> r is Err,
            r matches Ok(q) ==> query_matches(q, self.spec_target(), self.spec_location(), self.spec_udn()),
    {
        match &self.target {
            TargetType::Service(_) => Err(
                SimpleError::new("Service Queries Are Unimplemented"),
            ),
            _ => Ok(build_query(&self.location, &self.udn, &self.target)),
        }
    }
}

impl MessageExt for UpdateMessage {
    open spec fn spec_message_headers(&self) -> Seq<(Seq<u8>, Seq<u8>)> {
        self.spec_headers()
    }

    fn check_header(&self, name: &[u8]) -> (r: Option<Vec<Vec<u8>>>) {
        self.headers.check_raw(name)
    }
}

/// Represents ByeByeMessage versions pertaining to different UPnP versions.
///
/// A departing device sends no SERVER header, so the version is inferred
/// from the extension fields alone; the version presented here may be less
/// than the actual UPnP version in use.
#[derive(Clone, PartialEq, Eq, Hash, Debug)]
pub enum ByeByeVersion {
    /// UPnP Version 1.0.
    V10,
    /// UPnP Version 1.1 or later.
    V11(AliveExtV11Impl),
}

/// The mathematical value of a [`ByeByeVersion`].
pub ghost enum ByeByeVersionV {
    V10,
    V11(u32, u32, Option<u16>),
}

impl View for ByeByeVersion {
    type V = ByeByeVersionV;

    open spec fn view(&self) -> ByeByeVersionV {
        match self {
            ByeByeVersion::V10 => ByeByeVersionV::V10,
            ByeByeVersion::V11(e) => ByeByeVersionV::V11(e.boot_id, e.config_id, e.port),
        }
    }
}

/// The version inferred for a departing device: 1.1 when the extension
/// fields are present and well-formed, 1.0 otherwise; never an error.
pub open spec fn spec_byebye_version(h: Seq<(Seq<u8>, Seq<u8>)>) -> ByeByeVersionV {
    match spec_v11_ext(h) {
        Ok((b, c, p)) => ByeByeVersionV::V11(b, c, p),
        Err(_) => ByeByeVersionV::V10,
    }
}

/// The validated parts of a byebye announcement.
pub ghost struct ByeByePartsV {
    /// The resolved notification target.
    pub target: TargetTypeV,
    /// The unique device name.
    pub udn: Seq<u8>,
    /// The inferred protocol revision.
    pub version: ByeByeVersionV,
}

/// The validation a byebye announcement must pass: HOST, NT and USN are
/// mandatory (cache metadata and location are not: the device is leaving),
/// the HOST value must name the multicast rendezvous, NT and USN must be
/// consistent, and the NT target is resolved.
pub open spec fn spec_byebye_pieces(h: Seq<(Seq<u8>, Seq<u8>)>) -> Result<
    ByeByePartsV,
    SSDPError,
> {
    match spec_single_value(h, host_name_bytes()) {
        None => Err(SSDPError::MissingHeader(HeaderName::Host)),
        Some(host) => match spec_parse_nt(spec_values_of(h, nt_name_bytes())) {
            None => Err(SSDPError::MissingHeader(HeaderName::Nt)),
            Some(nt) => match spec_parse_usn(spec_values_of(h, usn_name_bytes())) {
                None => Err(SSDPError::MissingHeader(HeaderName::Usn)),
                Some(usn) => if host != MESSAGE_MULTICAST_HOST.spec_bytes() {
                    Err(SSDPError::InvalidHeader(HeaderName::Host))
                } else {
                    match spec_check_nt_usn(nt, usn.0, usn.1) {
                        Err(e) => Err(e),
                        Ok(_) => match spec_resolve_target(nt) {
                            Err(te) => Err(SSDPError::Target(te)),
                            Ok(t) => Ok(
                                ByeByePartsV {
                                    target: t,
                                    udn: spec_encode_field(usn.0),
                                    version: spec_byebye_version(h),
                                },
                            ),
                        },
                    }
                },
            },
        },
    }
}

/// Represents a message signifying that a device is gracefully shutting
/// down.
#[derive(Debug)]
pub struct ByeByeMessage {
    headers: HeaderMap,
    target: TargetType,
    udn: Vec<u8>,
    version: ByeByeVersion,
}

/// Whether a byebye message carries the values of the validated parts.
pub open spec fn byebye_message_matches(m: ByeByeMessage, v: ByeByePartsV) -> bool {
    &&& m.spec_target() == v.target
    &&& m.spec_udn() == v.udn
    &&& m.spec_version() == v.version
}

impl ByeByeMessage {
    /// The header block this message was built from.
    pub closed spec fn spec_headers(&self) -> Seq<(Seq<u8>, Seq<u8>)> {
        self.headers@
    }

    /// The resolved notification target.
    pub closed spec fn spec_target(&self) -> TargetTypeV {
        self.target@
    }

    /// The unique device name.
    pub closed spec fn spec_udn(&self) -> Seq<u8> {
        self.udn@
    }

    /// The inferred protocol revision.
    pub closed spec fn spec_version(&self) -> ByeByeVersionV {
        self.version@
    }

    /// Create a new ByeByeMessage from the given headers.
    pub fn new(headers: HeaderMap) -> (r: SSDPResult<ByeByeMessage>)
        ensures
            r matches Ok(m) ==> spec_byebye_pieces(headers@) matches Ok(v) && byebye_message_matches(
                m,
                v,
            ) && m.spec_headers() == headers@ && m.spec_udn().len() >= 5,
            r matches Err(e) ==> spec_byebye_pieces(headers@) == Err::<ByeByePartsV, SSDPError>(e),
    {
        let host_lines = headers.values_of("HOST".as_bytes());
        if host_lines.len() != 1 {
            return Err(SSDPError::MissingHeader(HeaderName::Host));
        }
        assert(seq_views(host_lines@)[0] == host_lines@[0]@);
        let nt_lines = headers.values_of("NT".as_bytes());
        let nt = match NT::parse_header(nt_lines.as_slice()) {
            Some(n) => n.0,
            None => {
                return Err(SSDPError::MissingHeader(HeaderName::Nt));
            },
        };
        let usn_lines = headers.values_of("USN".as_bytes());
        let usn = match USN::parse_header(usn_lines.as_slice()) {
            Some(u) => u,
            None => {
                return Err(SSDPError::MissingHeader(HeaderName::Usn));
            },
        };
        if !bytes_eq(host_lines[0].as_slice(), MESSAGE_MULTICAST_HOST.as_bytes()) {
            return Err(SSDPError::InvalidHeader(HeaderName::Host));
        }
        match check_nt_usn_rules(&nt, &usn.0, &usn.1) {
            Err(e) => {
                return Err(e);
            },
            Ok(_) => {},
        }
        let target = match TargetType::new(&nt) {
            Ok(t) => t,
            Err(te) => {
                return Err(SSDPError::Target(te));
            },
        };
        let udn = usn.0.to_bytes();
        let version = match crate::message::v11_ext_of(&headers) {
            Ok(e) => ByeByeVersion::V11(e),
            Err(_) => ByeByeVersion::V10,
        };
        proof {
            lemma_udn_min_len(spec_byebye_pieces(headers@)->Ok_0.udn);
        }
        Ok(ByeByeMessage { headers, target, udn, version })
    }

    /// The inferred UPnP version of the departing device.
    pub fn version(&self) -> (r: &ByeByeVersion)
        ensures
            r@ == self.spec_version(),
    {
        &self.version
    }

    /// Query object associated with this message.  A departing device
    /// advertises no location, so the query's URL is empty.  Service targets
    /// are unsupported.
    pub fn query(&self) -> (r: SimpleResult<QueryType>)
        ensures
            self.spec_target() is Service <==> r is Err,
            r matches Ok(q) ==> query_matches(
                q,
                self.spec_target(),
                Seq::<char>::empty(),
                self.spec_udn(),
            ),
    {
        match &self.target {
            TargetType::Service(_) => Err(
                SimpleError::new("Service Queries Are Unimplemented"),
            ),
            _ => {
                let empty = String::new();
                let r = build_query(&empty, &self.udn, &self.target);
                assert(empty@ =~= Seq::<char>::empty());
                Ok(r)
            },
        }
    }
}

impl MessageExt for ByeByeMessage {
    open spec fn spec_message_headers(&self) -> Seq<(Seq<u8>, Seq<u8>)> {
        self.spec_headers()
    }

    fn check_header(&self, name: &[u8]) -> (r: Option<Vec<Vec<u8>>>) {
        self.headers.check_raw(name)
    }
}

/// A notify message that was sent by some device on the network, selected by
/// its mandatory NTS header.
#[derive(Debug)]
pub enum NotifyMessage {
    /// Device recently joined or is renewing its status on the network.
    Alive(AliveMessage),
    /// Device updated one or more of its devices/services on the network.
    Update(UpdateMessage),
    /// Device is gracefully removing itself from the network.
    ByeBye(ByeByeMessage),
}

/// The notification sub type a header block selects: an absent NTS is a
/// missing header, an unrecognized or repeated one an invalid header.
pub open spec fn spec_notify_kind(h: Seq<(Seq<u8>, Seq<u8>)>) -> Result<NTS, SSDPError> {
    match spec_parse_nts(spec_values_of(h, nts_name_bytes())) {
        Some(k) => Ok(k),
        None => if spec_values_of(h, nts_name_bytes()).len() == 0 {
            Err(SSDPError::MissingHeader(HeaderName::Nts))
        } else {
            Err(SSDPError::InvalidHeader(HeaderName::Nts))
        },
    }
}

impl NotifyMessage {
    /// Create a new NotifyMessage from the given headers: the NTS value
    /// selects the message kind, whose own validation then applies.
    pub fn new(headers: HeaderMap) -> (r: SSDPResult<NotifyMessage>)
        ensures
            r matches Ok(NotifyMessage::Alive(m)) ==> spec_notify_kind(headers@) == Ok::<
                NTS,
                SSDPError,
            >(NTS::Alive) && (spec_alive_pieces(headers@) matches Ok(v) && alive_message_matches(
                m,
                v,
            )),
            r matches Ok(NotifyMessage::Update(m)) ==> spec_notify_kind(headers@) == Ok::<
                NTS,
                SSDPError,
            >(NTS::Update) && (spec_alive_pieces(headers@) matches Ok(v) && update_message_matches(
                m,
                v,
            )),
            r matches Ok(NotifyMessage::ByeBye(m)) ==> spec_notify_kind(headers@) == Ok::<
                NTS,
                SSDPError,
            >(NTS::ByeBye) && (spec_byebye_pieces(headers@) matches Ok(v) && byebye_message_matches(
                m,
                v,
            )),
            r matches Err(e) ==> match spec_notify_kind(headers@) {
                Err(e0) => e == e0,
                Ok(NTS::Alive) => spec_alive_pieces(headers@) == Err::<AlivePartsV, SSDPError>(e),
                Ok(NTS::Update) => spec_alive_pieces(headers@) == Err::<AlivePartsV, SSDPError>(e),
                Ok(NTS::ByeBye) => spec_byebye_pieces(headers@) == Err::<ByeByePartsV, SSDPError>(
                    e,
                ),
            },
    {
        let nts_lines = headers.values_of("NTS".as_bytes());
        let kind = match NTS::parse_header(nts_lines.as_slice()) {
            Some(k) => k,
            None => {
                if nts_lines.len() == 0 {
                    return Err(SSDPError::MissingHeader(HeaderName::Nts));
                } else {
                    return Err(SSDPError::InvalidHeader(HeaderName::Nts));
                }
            },
        };
        match kind {
            NTS::Alive => match AliveMessage::new(headers) {
                Ok(m) => Ok(NotifyMessage::Alive(m)),
                Err(e) => Err(e),
            },
            NTS::Update => match UpdateMessage::new(headers) {
                Ok(m) => Ok(NotifyMessage::Update(m)),
                Err(e) => Err(e),
            },
            NTS::ByeBye => match ByeByeMessage::new(headers) {
                Ok(m) => Ok(NotifyMessage::ByeBye(m)),
                Err(e) => Err(e),
            },
        }
    }
}

/// The raw text of a `uuid:` token carrying `x`.
pub open spec fn uuid_token(x: Seq<u8>) -> Seq<u8> {
    crate::field::uuid_key() + seq![crate::bytes::COLON] + x
}

/// The raw text of the `upnp:rootdevice` token.
pub open spec fn upnp_root_token() -> Seq<u8> {
    crate::field::upnp_key() + seq![crate::bytes::COLON]
        + crate::forum::UPNP_ROOT_VALUE.spec_bytes()
}

/// The raw text of a USN naming the device `x` and the root device token.
pub open spec fn usn_uuid_root_text(x: Seq<u8>) -> Seq<u8> {
    crate::field::uuid_key() + seq![crate::bytes::COLON] + (x + seq![
        crate::bytes::COLON,
        crate::bytes::COLON,
    ] + upnp_root_token())
}

/// NT/USN consistency over the header texts, for any UUID text free of
/// double colons and not ending in a colon: with NT `uuid:<X>` a USN
/// `uuid:<X>::upnp:rootdevice` parses to a USN with a second field and fails
/// validation — the second field must be absent when NT carries a UUID —
/// while the USN `uuid:<X>` alone parses without a second field and passes.
pub proof fn lemma_nt_usn_consistency_texts(x: Seq<u8>)
    requires
        forall|i: int|
            0 <= i && i + 2 <= x.len() ==> !(#[trigger] x[i] == crate::bytes::COLON && x[i + 1]
                == crate::bytes::COLON),
        x.len() > 0 ==> x.last() != crate::bytes::COLON,
    ensures
        spec_parse_field(uuid_token(x)) == Some(FieldView::UUID(x)),
        spec_parse_usn_bytes(usn_uuid_root_text(x)) == Some(
            (
                FieldView::UUID(x),
                Some(FieldView::UPnP(crate::forum::UPNP_ROOT_VALUE.spec_bytes())),
            ),
        ),
        spec_check_nt_usn(
            FieldView::UUID(x),
            FieldView::UUID(x),
            Some(FieldView::UPnP(crate::forum::UPNP_ROOT_VALUE.spec_bytes())),
        ) == Err::<(), SSDPError>(SSDPError::InvalidHeader(HeaderName::Usn)),
        spec_parse_usn_bytes(uuid_token(x)) == Some(
            (FieldView::UUID(x), None::<FieldView>),
        ),
        spec_check_nt_usn(FieldView::UUID(x), FieldView::UUID(x), None) == Ok::<(), SSDPError>(
            (),
        ),
{
    let root = crate::forum::UPNP_ROOT_VALUE.spec_bytes();
    let value = x + seq![crate::bytes::COLON, crate::bytes::COLON] + upnp_root_token();
    crate::field::lemma_parse_known_key_tokens(x);
    crate::field::lemma_parse_known_key_tokens(value);
    crate::field::lemma_parse_known_key_tokens(root);
    // the USN with a second token: its payload splits at the double colon
    crate::header::lemma_first_double_colon_of_concat(x, upnp_root_token());
    assert(value.take(x.len() as int) =~= x);
    assert(value.skip(x.len() as int + 2) =~= upnp_root_token());
    // the USN without one: its payload holds no double colon
    crate::header::lemma_first_double_colon(x);
    match crate::header::first_double_colon(x) {
        Some(k) => {
            assert(!(x[k] == crate::bytes::COLON && x[k + 1] == crate::bytes::COLON));
            assert(false);
        },
        None => {},
    }
}

/// NT/USN consistency for UUID notification types: when NT carries a UUID,
/// a USN whose first field carries the same UUID and which carries any
/// second field fails validation — the second field must be absent — while
/// the same USN without a second field passes.
pub proof fn lemma_nt_usn_uuid_consistency(x: Seq<u8>, second: FieldView)
    ensures
        spec_check_nt_usn(FieldView::UUID(x), FieldView::UUID(x), Some(second)) == Err::<
            (),
            SSDPError,
        >(SSDPError::InvalidHeader(HeaderName::Usn)),
        spec_check_nt_usn(FieldView::UUID(x), FieldView::UUID(x), None) == Ok::<(), SSDPError>(()),
{
}

} // verus!
