//! Headers and primitives for parsing headers within SSDP requests.
//!
//! Raw header values arrive as the byte lines the tokenizer collected for a
//! field name; each typed header parses those lines, demanding exactly one
//! where the protocol does.

use vstd::prelude::*;
use vstd::string::StringSliceAdditionalSpecFns;
use vstd::utf8::{encode_utf8, valid_utf8};

use crate::bytes::{bytes_as_str, bytes_eq, parse_unsigned_bounded, spec_parse_unsigned,
    sub_to_vec, COLON};
use crate::field::{spec_parse_field, FieldPair, FieldView};

verus! {

/// The views of a list of byte vectors.
pub open spec fn seq_views(s: Seq<Vec<u8>>) -> Seq<Seq<u8>> {
    s.map_values(|v: Vec<u8>| v@)
}

/// A header block: the field name and value of each header line, in arrival
/// order.  Field names are matched byte for byte; the tokenizer is expected
/// to canonicalise case before handing a block to the library.
#[derive(Debug)]
pub struct HeaderMap {
    entries: Vec<(Vec<u8>, Vec<u8>)>,
}

impl View for HeaderMap {
    type V = Seq<(Seq<u8>, Seq<u8>)>;

    closed spec fn view(&self) -> Seq<(Seq<u8>, Seq<u8>)> {
        self.entries@.map_values(|e: (Vec<u8>, Vec<u8>)| (e.0@, e.1@))
    }
}

/// The values carried by the lines of the named field, in order.
pub open spec fn spec_values_of(h: Seq<(Seq<u8>, Seq<u8>)>, name: Seq<u8>) -> Seq<Seq<u8>>
    decreases h.len(),
{
    if h.len() == 0 {
        Seq::empty()
    } else {
        let rest = spec_values_of(h.drop_first(), name);
        if h[0].0 == name {
            seq![h[0].1] + rest
        } else {
            rest
        }
    }
}

impl HeaderMap {
    /// An empty header block.
    pub fn new() -> (r: HeaderMap)
        ensures
            r@ == Seq::<(Seq<u8>, Seq<u8>)>::empty(),
    {
        let r = HeaderMap { entries: Vec::new() };
        assert(r@ =~= Seq::<(Seq<u8>, Seq<u8>)>::empty());
        r
    }

    /// Append one header line.
    pub fn insert_raw(&mut self, name: Vec<u8>, value: Vec<u8>)
        ensures
            final(self)@ == old(self)@.push((name@, value@)),
    {
        let ghost before = self@;
        let ghost n = name@;
        let ghost v = value@;
        self.entries.push((name, value));
        assert(self@ =~= before.push((n, v)));
    }

    /// Collect the values of every line whose field name equals `name`.
    pub fn values_of(&self, name: &[u8]) -> (r: Vec<Vec<u8>>)
        ensures
            seq_views(r@) == spec_values_of(self@, name@),
    {
        let n = self.entries.len();
        let mut out: Vec<Vec<u8>> = Vec::new();
        let mut i: usize = 0;
        assert(self@.skip(0) =~= self@);
        assert(seq_views(out@) + spec_values_of(self@.skip(0), name@) =~= spec_values_of(
            self@,
            name@,
        ));
        while i < n
            invariant
                n == self.entries@.len(),
                self@.len() == n,
                0 <= i <= n,
                seq_views(out@) + spec_values_of(self@.skip(i as int), name@) =~= spec_values_of(
                    self@,
                    name@,
                ),
            decreases n - i,
        {
            let ghost pre = out@;
            let e = &self.entries[i];
            proof {
                assert(self@[i as int] == (e.0@, e.1@));
                assert(self@.skip(i as int).drop_first() =~= self@.skip(i + 1));
                assert(self@.skip(i as int)[0] == self@[i as int]);
            }
            if bytes_eq(e.0.as_slice(), name) {
                let copy = sub_to_vec(e.1.as_slice(), 0, e.1.len());
                assert(copy@ =~= e.1@);
                out.push(copy);
                proof {
                    assert(seq_views(out@) =~= seq_views(pre).push(e.1@));
                    assert(seq_views(out@) + spec_values_of(self@.skip(i + 1), name@)
                        =~= seq_views(pre) + spec_values_of(self@.skip(i as int), name@));
                }
            }
            i += 1;
        }
        proof {
            assert(self@.skip(n as int) =~= Seq::<(Seq<u8>, Seq<u8>)>::empty());
            assert(seq_views(out@) + spec_values_of(self@.skip(n as int), name@) =~= seq_views(
                out@,
            ));
        }
        out
    }

    /// The values of the named field, or nothing when no line carries it.
    pub fn check_raw(&self, name: &[u8]) -> (r: Option<Vec<Vec<u8>>>)
        ensures
            spec_values_of(self@, name@).len() == 0 <==> r is None,
            r matches Some(v) ==> seq_views(v@) == spec_values_of(self@, name@),
    {
        let vals = self.values_of(name);
        if vals.len() == 0 {
            assert(spec_values_of(self@, name@).len() == 0);
            None
        } else {
            Some(vals)
        }
    }
}

/// The NT header name.
pub const NT_HEADER_NAME: &'static str = "NT";

/// Represents an NT header which specifies a Notification Type.
///
/// Any double colons will not be processed as separate FieldPairs.
#[derive(Clone, PartialEq, Eq, Hash, Debug)]
pub struct NT(pub FieldPair);

/// The field pair of a well-formed NT header: one line that parses.
pub open spec fn spec_parse_nt(raw: Seq<Seq<u8>>) -> Option<FieldView> {
    if raw.len() != 1 {
        None
    } else {
        spec_parse_field(raw[0])
    }
}

impl NT {
    /// Wrap a field pair as an NT header.
    pub fn new(field: FieldPair) -> (r: NT)
        ensures
            r.0 == field,
    {
        NT(field)
    }

    /// The wire name of this header.
    pub fn header_name() -> (r: &'static str)
        ensures
            r@ == NT_HEADER_NAME@,
    {
        NT_HEADER_NAME
    }

    /// Parse the raw lines of an NT header: exactly one line holding a
    /// field pair.
    pub fn parse_header(raw: &[Vec<u8>]) -> (r: Option<NT>)
        ensures
            r matches Some(nt) ==> spec_parse_nt(seq_views(raw@)) == Some(nt.0@),
            r is None ==> spec_parse_nt(seq_views(raw@)) is None,
    {
        if raw.len() != 1 {
            return None;
        }
        match FieldPair::new(raw[0].as_slice()) {
            Some(n) => Some(NT(n)),
            None => None,
        }
    }
}

/// The ST header name.
pub const ST_HEADER_NAME: &'static str = "ST";

/// The ST value that addresses every device.
pub const ST_ALL_VALUE: &'static str = "ssdp:all";

/// Represents an ST header which specifies the Search Target.
#[derive(Clone, PartialEq, Eq, Hash, Debug)]
pub enum ST {
    All,
    Target(FieldPair),
}

/// The mathematical value of an [`ST`] header.
pub ghost enum STView {
    All,
    Target(FieldView),
}

impl View for ST {
    type V = STView;

    open spec fn view(&self) -> STView {
        match self {
            ST::All => STView::All,
            ST::Target(f) => STView::Target(f@),
        }
    }
}

/// The raw value an [`ST`] header serializes to: the `ssdp:all` keyword or
/// the reassembled field pair.
pub open spec fn spec_encode_st(st: STView) -> Seq<u8> {
    match st {
        STView::All => ST_ALL_VALUE.spec_bytes(),
        STView::Target(f) => crate::field::spec_encode_field(f),
    }
}

/// The search target of a well-formed ST header: one line holding either the
/// `ssdp:all` keyword or a field pair.
pub open spec fn spec_parse_st(raw: Seq<Seq<u8>>) -> Option<STView> {
    if raw.len() != 1 {
        None
    } else if raw[0] == ST_ALL_VALUE.spec_bytes() {
        Some(STView::All)
    } else {
        match spec_parse_field(raw[0]) {
            Some(f) => Some(STView::Target(f)),
            None => None,
        }
    }
}

impl ST {
    /// The wire name of this header.
    pub fn header_name() -> (r: &'static str)
        ensures
            r@ == ST_HEADER_NAME@,
    {
        ST_HEADER_NAME
    }

    /// Reassemble the raw value this search target stands for.
    pub fn to_bytes(&self) -> (r: Vec<u8>)
        ensures
            r@ == spec_encode_st(self@),
    {
        match self {
            ST::All => {
                let r = sub_to_vec(ST_ALL_VALUE.as_bytes(), 0, ST_ALL_VALUE.as_bytes().len());
                assert(r@ =~= ST_ALL_VALUE.spec_bytes());
                r
            },
            ST::Target(f) => f.to_bytes(),
        }
    }

    /// Parse the raw lines of an ST header.
    pub fn parse_header(raw: &[Vec<u8>]) -> (r: Option<ST>)
        ensures
            r matches Some(st) ==> spec_parse_st(seq_views(raw@)) == Some(st@),
            r is None ==> spec_parse_st(seq_views(raw@)) is None,
    {
        if raw.len() != 1 {
            return None;
        }
        if bytes_eq(raw[0].as_slice(), ST_ALL_VALUE.as_bytes()) {
            Some(ST::All)
        } else {
            match FieldPair::new(raw[0].as_slice()) {
                Some(f) => Some(ST::Target(f)),
                None => None,
            }
        }
    }
}

/// The MAN header name.
pub const MAN_HEADER_NAME: &'static str = "MAN";

/// The only value the MAN header admits.
pub const MAN_HEADER_VALUE: &'static str = "\"ssdp:discover\"";

/// Represents a MAN header which is used to define the scope of the M-SEARCH
/// HTTP extension.
#[derive(Copy, Clone, PartialEq, Eq, Structural, Hash, Debug)]
pub struct MAN;

/// Whether the raw lines form a well-formed MAN header: one line holding the
/// quoted `ssdp:discover` scope, byte for byte.
pub open spec fn spec_parse_man(raw: Seq<Seq<u8>>) -> bool {
    raw.len() == 1 && raw[0] == MAN_HEADER_VALUE.spec_bytes()
}

impl MAN {
    /// The wire name of this header.
    pub fn header_name() -> (r: &'static str)
        ensures
            r@ == MAN_HEADER_NAME@,
    {
        MAN_HEADER_NAME
    }

    /// Parse the raw lines of a MAN header.
    pub fn parse_header(raw: &[Vec<u8>]) -> (r: Option<MAN>)
        ensures
            r is Some <==> spec_parse_man(seq_views(raw@)),
    {
        if raw.len() != 1 {
            return None;
        }
        if bytes_eq(raw[0].as_slice(), MAN_HEADER_VALUE.as_bytes()) {
            Some(MAN)
        } else {
            None
        }
    }
}

/// The CONFIGID.UPNP.ORG header name.
pub const CONFIGID_HEADER_NAME: &'static str = "CONFIGID.UPNP.ORG";

/// Represents a UPnP ConfigId header which is used to denote the
/// configuration of a root device and its embedded devices and services.
#[derive(Copy, Clone, PartialEq, Eq, Structural, Hash, Debug)]
pub struct CONFIGID(pub u32);

/// The value of a config-id numeral: the wire value is a signed 31-bit
/// integer, and negative values are rejected, so only `-0` may carry a sign.
pub open spec fn spec_parse_configid_bytes(s: Seq<u8>) -> Option<u32> {
    if s.len() > 0 && s[0] == 45 {
        let d = s.drop_first();
        if d.len() > 0 && crate::bytes::all_dec_digits(d) && crate::bytes::dec_value(d)
            <= 0x8000_0000 {
            if crate::bytes::dec_value(d) == 0 {
                Some(0)
            } else {
                None
            }
        } else {
            None
        }
    } else {
        match spec_parse_unsigned(s) {
            Some(n) => if n <= 0x7FFF_FFFF {
                Some(n as u32)
            } else {
                None
            },
            None => None,
        }
    }
}

/// The config id of a well-formed CONFIGID header.
pub open spec fn spec_parse_configid(raw: Seq<Seq<u8>>) -> Option<u32> {
    if raw.len() != 1 {
        None
    } else {
        spec_parse_configid_bytes(raw[0])
    }
}

impl CONFIGID {
    /// The wire name of this header.
    pub fn header_name() -> (r: &'static str)
        ensures
            r@ == CONFIGID_HEADER_NAME@,
    {
        CONFIGID_HEADER_NAME
    }

    /// Parse the raw lines of a CONFIGID header: one line holding a
    /// non-negative decimal that fits a signed 31-bit integer.
    pub fn parse_header(raw: &[Vec<u8>]) -> (r: Option<CONFIGID>)
        ensures
            r matches Some(c) ==> spec_parse_configid(seq_views(raw@)) == Some(c.0),
            r is None ==> spec_parse_configid(seq_views(raw@)) is None,
    {
        if raw.len() != 1 {
            return None;
        }
        let line = raw[0].as_slice();
        if line.len() > 0 && line[0] == 45 {
            let digits = vstd::slice::slice_subrange(line, 1, line.len());
            assert(digits@ =~= raw@[0]@.drop_first());
            match crate::bytes::parse_digits_bounded(digits, 0x8000_0000) {
                Some(v) => if v == 0 {
                    Some(CONFIGID(0))
                } else {
                    None
                },
                None => None,
            }
        } else {
            match parse_unsigned_bounded(line, 0x7FFF_FFFF) {
                Some(v) => Some(CONFIGID(v as u32)),
                None => None,
            }
        }
    }
}

/// The BOOTID.UPNP.ORG header name.
pub const BOOTID_HEADER_NAME: &'static str = "BOOTID.UPNP.ORG";

/// Represents a UPnP BootId header which identifies the boot instance of a
/// root device.
#[derive(Copy, Clone, PartialEq, Eq, Structural, Hash, Debug)]
pub struct BOOTID(pub u32);

/// The boot id of a well-formed BOOTID header: one line holding a decimal
/// that fits an unsigned 32-bit integer.
pub open spec fn spec_parse_bootid(raw: Seq<Seq<u8>>) -> Option<u32> {
    if raw.len() != 1 {
        None
    } else {
        match spec_parse_unsigned(raw[0]) {
            Some(n) => if n <= 0xFFFF_FFFF {
                Some(n as u32)
            } else {
                None
            },
            None => None,
        }
    }
}

impl BOOTID {
    /// The wire name of this header.
    pub fn header_name() -> (r: &'static str)
        ensures
            r@ == BOOTID_HEADER_NAME@,
    {
        BOOTID_HEADER_NAME
    }

    /// Parse the raw lines of a BOOTID header.
    pub fn parse_header(raw: &[Vec<u8>]) -> (r: Option<BOOTID>)
        ensures
            r matches Some(b) ==> spec_parse_bootid(seq_views(raw@)) == Some(b.0),
            r is None ==> spec_parse_bootid(seq_views(raw@)) is None,
    {
        if raw.len() != 1 {
            return None;
        }
        match parse_unsigned_bounded(raw[0].as_slice(), 0xFFFF_FFFF) {
            Some(v) => Some(BOOTID(v as u32)),
            None => None,
        }
    }
}

/// The SEARCHPORT.UPNP.ORG header name.
pub const SEARCHPORT_HEADER_NAME: &'static str = "SEARCHPORT.UPNP.ORG";

/// Represents a UPnP SearchPort header which names the port a device answers
/// unicast search requests on when 1900 is unavailable to it.
#[derive(Copy, Clone, PartialEq, Eq, Structural, Hash, Debug)]
pub struct SEARCHPORT(pub u16);

/// The port of a well-formed SEARCHPORT header: one line holding a decimal
/// that fits an unsigned 16-bit integer.
pub open spec fn spec_parse_searchport(raw: Seq<Seq<u8>>) -> Option<u16> {
    if raw.len() != 1 {
        None
    } else {
        match spec_parse_unsigned(raw[0]) {
            Some(n) => if n <= 0xFFFF {
                Some(n as u16)
            } else {
                None
            },
            None => None,
        }
    }
}

impl SEARCHPORT {
    /// The wire name of this header.
    pub fn header_name() -> (r: &'static str)
        ensures
            r@ == SEARCHPORT_HEADER_NAME@,
    {
        SEARCHPORT_HEADER_NAME
    }

    /// Parse the raw lines of a SEARCHPORT header.
    pub fn parse_header(raw: &[Vec<u8>]) -> (r: Option<SEARCHPORT>)
        ensures
            r matches Some(p) ==> spec_parse_searchport(seq_views(raw@)) == Some(p.0),
            r is None ==> spec_parse_searchport(seq_views(raw@)) is None,
    {
        if raw.len() != 1 {
            return None;
        }
        match parse_unsigned_bounded(raw[0].as_slice(), 0xFFFF) {
            Some(v) => Some(SEARCHPORT(v as u16)),
            None => None,
        }
    }
}

/// The SECURELOCATION.UPNP.ORG header name.
pub const SECURELOCATION_HEADER_NAME: &'static str = "SECURELOCATION.UPNP.ORG";

/// Represents a UPnP SecureLocation header which is a url provided by a
/// device which allows control points to retrieve device and service
/// descriptions over HTTPS.
///
/// Can be used instead of the Location header field.  Only UTF-8 validity
/// and non-emptiness are enforced; the string is kept even when it is not a
/// syntactically valid URL.
#[derive(Clone, PartialEq, Eq, Hash, Debug)]
pub struct SECURELOCATION(pub String);

/// The location bytes of a well-formed SECURELOCATION header: one line that
/// is non-empty, valid UTF-8.
pub open spec fn spec_parse_securelocation(raw: Seq<Seq<u8>>) -> Option<Seq<u8>> {
    if raw.len() == 1 && raw[0].len() > 0 && valid_utf8(raw[0]) {
        Some(raw[0])
    } else {
        None
    }
}

impl SECURELOCATION {
    /// The wire name of this header.
    pub fn header_name() -> (r: &'static str)
        ensures
            r@ == SECURELOCATION_HEADER_NAME@,
    {
        SECURELOCATION_HEADER_NAME
    }

    /// Parse the raw lines of a SECURELOCATION header.
    pub fn parse_header(raw: &[Vec<u8>]) -> (r: Option<SECURELOCATION>)
        ensures
            r matches Some(sl) ==> spec_parse_securelocation(seq_views(raw@)) == Some(
                encode_utf8(sl.0@),
            ),
            r is None ==> spec_parse_securelocation(seq_views(raw@)) is None,
    {
        if raw.len() != 1 || raw[0].len() == 0 {
            return None;
        }
        match bytes_as_str(raw[0].as_slice()) {
            Some(s) => Some(SECURELOCATION(s.to_owned())),
            None => None,
        }
    }
}

/// The NTS header name.
pub const NTS_HEADER_NAME: &'static str = "NTS";

/// The NTS value announcing presence.
pub const NTS_ALIVE_VALUE: &'static str = "ssdp:alive";

/// The NTS value announcing a changed description.
pub const NTS_UPDATE_VALUE: &'static str = "ssdp:update";

/// The NTS value announcing departure.
pub const NTS_BYEBYE_VALUE: &'static str = "ssdp:byebye";

/// Represents an NTS header which specifies the Notification Sub Type: the
/// reason a notification was sent.
#[derive(Copy, Clone, PartialEq, Eq, Structural, Hash, Debug)]
pub enum NTS {
    /// Device recently joined or is renewing its status on the network.
    Alive,
    /// Device updated one or more of its devices/services on the network.
    Update,
    /// Device is gracefully removing itself from the network.
    ByeBye,
}

/// The sub type of a well-formed NTS header: one line holding one of the
/// three known values, byte for byte.
pub open spec fn spec_parse_nts(raw: Seq<Seq<u8>>) -> Option<NTS> {
    if raw.len() != 1 {
        None
    } else if raw[0] == NTS_ALIVE_VALUE.spec_bytes() {
        Some(NTS::Alive)
    } else if raw[0] == NTS_UPDATE_VALUE.spec_bytes() {
        Some(NTS::Update)
    } else if raw[0] == NTS_BYEBYE_VALUE.spec_bytes() {
        Some(NTS::ByeBye)
    } else {
        None
    }
}

impl NTS {
    /// The wire name of this header.
    pub fn header_name() -> (r: &'static str)
        ensures
            r@ == NTS_HEADER_NAME@,
    {
        NTS_HEADER_NAME
    }

    /// Parse the raw lines of an NTS header.
    pub fn parse_header(raw: &[Vec<u8>]) -> (r: Option<NTS>)
        ensures
            r == spec_parse_nts(seq_views(raw@)),
    {
        if raw.len() != 1 {
            return None;
        }
        let line = raw[0].as_slice();
        if bytes_eq(line, NTS_ALIVE_VALUE.as_bytes()) {
            Some(NTS::Alive)
        } else if bytes_eq(line, NTS_UPDATE_VALUE.as_bytes()) {
            Some(NTS::Update)
        } else if bytes_eq(line, NTS_BYEBYE_VALUE.as_bytes()) {
            Some(NTS::ByeBye)
        } else {
            None
        }
    }
}

/// The USN header name.
pub const USN_HEADER_NAME: &'static str = "USN";

/// Represents a USN header which specifies a Unique Service Name: a device
/// identifier optionally followed, after a double colon, by a second target
/// token.
#[derive(Clone, PartialEq, Eq, Hash, Debug)]
pub struct USN(pub FieldPair, pub Option<FieldPair>);

/// The payload of a field pair.
pub open spec fn field_value(f: FieldView) -> Seq<u8> {
    match f {
        FieldView::UPnP(v) => v,
        FieldView::UUID(v) => v,
        FieldView::URN(v) => v,
        FieldView::Unknown(k, v) => v,
    }
}

/// The same field pair carrying another payload.
pub open spec fn with_field_value(f: FieldView, v: Seq<u8>) -> FieldView {
    match f {
        FieldView::UPnP(_) => FieldView::UPnP(v),
        FieldView::UUID(_) => FieldView::UUID(v),
        FieldView::URN(_) => FieldView::URN(v),
        FieldView::Unknown(k, _) => FieldView::Unknown(k, v),
    }
}

/// The index of the first double colon of `v`, if any.
pub open spec fn first_double_colon(v: Seq<u8>) -> Option<int>
    decreases v.len(),
{
    if v.len() < 2 {
        None
    } else if v[0] == COLON && v[1] == COLON {
        Some(0)
    } else {
        match first_double_colon(v.drop_first()) {
            Some(i) => Some(i + 1),
            None => None,
        }
    }
}

/// What [`first_double_colon`] finds: the earliest adjacent pair of colons.
pub proof fn lemma_first_double_colon(v: Seq<u8>)
    ensures
        match first_double_colon(v) {
            Some(i) => 0 <= i && i + 2 <= v.len() && v[i] == COLON && v[i + 1] == COLON
                && forall|j: int| 0 <= j < i ==> !(#[trigger] v[j] == COLON && v[j + 1] == COLON),
            None => forall|j: int|
                0 <= j && j + 2 <= v.len() ==> !(#[trigger] v[j] == COLON && v[j + 1] == COLON),
        },
    decreases v.len(),
{
    if v.len() < 2 {
    } else if v[0] == COLON && v[1] == COLON {
    } else {
        let t = v.drop_first();
        lemma_first_double_colon(t);
        assert(forall|j: int| 0 <= j < t.len() ==> #[trigger] t[j] == v[j + 1]);
        match first_double_colon(t) {
            Some(i) => {
                assert forall|j: int| 0 <= j < i + 1 implies !(#[trigger] v[j] == COLON && v[j + 1]
                    == COLON) by {
                    if j == 0 {
                    } else {
                        assert(!(t[j - 1] == COLON && t[j] == COLON));
                    }
                }
            },
            None => {
                assert forall|j: int| 0 <= j && j + 2 <= v.len() implies !(#[trigger] v[j] == COLON
                    && v[j + 1] == COLON) by {
                    if j == 0 {
                    } else {
                        assert(!(t[j - 1] == COLON && t[j] == COLON));
                    }
                }
            },
        }
    }
}

/// The first double colon of a byte string built as a head free of double
/// colons and not ending in a colon, a double colon, and a tail: it stands
/// where the head ends.
pub proof fn lemma_first_double_colon_of_concat(x: Seq<u8>, r: Seq<u8>)
    requires
        forall|i: int| 0 <= i && i + 2 <= x.len() ==> !(#[trigger] x[i] == COLON && x[i + 1]
            == COLON),
        x.len() > 0 ==> x.last() != COLON,
    ensures
        first_double_colon(x + seq![COLON, COLON] + r) == Some(x.len() as int),
{
    let s = x + seq![COLON, COLON] + r;
    lemma_first_double_colon(s);
    assert(s[x.len() as int] == COLON && s[x.len() as int + 1] == COLON);
    match first_double_colon(s) {
        Some(k) => {
            assert(k >= x.len()) by {
                if k < x.len() {
                    if k + 1 < x.len() {
                        assert(s[k] == x[k] && s[k + 1] == x[k + 1]);
                        assert(!(x[k] == COLON && x[k + 1] == COLON));
                    } else {
                        assert(s[k] == x[k]);
                        assert(x[x.len() - 1] != COLON);
                    }
                }
            }
            assert(k <= x.len()) by {
                if k > x.len() {
                    assert(!(s[x.len() as int] == COLON && s[x.len() as int + 1] == COLON));
                }
            }
        },
        None => {
            assert(!(s[x.len() as int] == COLON && s[x.len() as int + 1] == COLON));
            assert(false);
        },
    }
}

/// The parts of a USN value: the field pair of the whole token, its payload
/// cut at the first double colon, and the second token parsed from what
/// follows that separator, when one is present.
pub open spec fn spec_parse_usn_bytes(b: Seq<u8>) -> Option<(FieldView, Option<FieldView>)> {
    match spec_parse_field(b) {
        None => None,
        Some(fp) => {
            let v = field_value(fp);
            match first_double_colon(v) {
                None => Some((fp, None)),
                Some(i) => match spec_parse_field(v.skip(i + 2)) {
                    None => None,
                    Some(second) => Some((with_field_value(fp, v.take(i)), Some(second))),
                },
            }
        },
    }
}

/// The parts of a well-formed USN header: one line holding a USN value.
pub open spec fn spec_parse_usn(raw: Seq<Seq<u8>>) -> Option<(FieldView, Option<FieldView>)> {
    if raw.len() != 1 {
        None
    } else {
        spec_parse_usn_bytes(raw[0])
    }
}

/// Find the first double colon of a byte string.
fn find_double_colon(s: &[u8]) -> (r: Option<usize>)
    ensures
        match r {
            Some(i) => first_double_colon(s@) == Some(i as int),
            None => first_double_colon(s@) is None,
        },
{
    let n = s.len();
    if n < 2 {
        proof {
            lemma_first_double_colon(s@);
        }
        return None;
    }
    let mut i: usize = 0;
    while i < n - 1
        invariant
            n == s@.len(),
            n >= 2,
            0 <= i <= n - 1,
            forall|j: int| 0 <= j < i ==> !(#[trigger] s@[j] == COLON && s@[j + 1] == COLON),
        decreases n - i,
    {
        if s[i] == COLON && s[i + 1] == COLON {
            proof {
                lemma_first_double_colon(s@);
                match first_double_colon(s@) {
                    Some(k) => {
                        if k < i as int {
                            assert(!(s@[k] == COLON && s@[k + 1] == COLON));
                        }
                        if k > i as int {
                            assert(!(s@[i as int] == COLON && s@[i + 1] == COLON));
                        }
                    },
                    None => {
                        assert(!(s@[i as int] == COLON && s@[i + 1] == COLON));
                    },
                }
            }
            return Some(i);
        }
        i += 1;
    }
    proof {
        lemma_first_double_colon(s@);
        match first_double_colon(s@) {
            Some(k) => {
                assert(!(s@[k] == COLON && s@[k + 1] == COLON));
            },
            None => {},
        }
    }
    None
}

/// Replace the payload of a field pair.
fn replace_field_value(fp: FieldPair, v: Vec<u8>) -> (r: FieldPair)
    ensures
        r@ == with_field_value(fp@, v@),
{
    match fp {
        FieldPair::UPnP(_) => FieldPair::UPnP(v),
        FieldPair::UUID(_) => FieldPair::UUID(v),
        FieldPair::URN(_) => FieldPair::URN(v),
        FieldPair::Unknown(k, _) => FieldPair::Unknown(k, v),
    }
}

/// Parse a USN value: a field pair whose payload may carry, after a double
/// colon, a second token.
pub fn parse_usn_bytes(b: &[u8]) -> (r: Option<USN>)
    ensures
        r matches Some(u) ==> spec_parse_usn_bytes(b@) == Some(
            (u.0@, match u.1 {
                Some(second) => Some(second@),
                None => None,
            }),
        ),
        r is None ==> spec_parse_usn_bytes(b@) is None,
{
    let fp = match FieldPair::new(b) {
        Some(f) => f,
        None => {
            return None;
        },
    };
    let split = {
        let value: &Vec<u8> = match &fp {
            FieldPair::UPnP(v) => v,
            FieldPair::UUID(v) => v,
            FieldPair::URN(v) => v,
            FieldPair::Unknown(_, v) => v,
        };
        assert(value@ == field_value(fp@));
        match find_double_colon(value.as_slice()) {
            None => None,
            Some(i) => {
                proof {
                    lemma_first_double_colon(value@);
                }
                let vn = value.len();
                assert(i + 2 <= vn);
                let head = sub_to_vec(value.as_slice(), 0, i);
                assert(head@ =~= field_value(fp@).take(i as int));
                let rest = vstd::slice::slice_subrange(value.as_slice(), i + 2, vn);
                assert(rest@ =~= field_value(fp@).skip(i + 2));
                match FieldPair::new(rest) {
                    None => {
                        return None;
                    },
                    Some(second) => Some((head, second)),
                }
            },
        }
    };
    match split {
        None => Some(USN(fp, None)),
        Some((head, second)) => Some(USN(replace_field_value(fp, head), Some(second))),
    }
}

impl USN {
    /// The wire name of this header.
    pub fn header_name() -> (r: &'static str)
        ensures
            r@ == USN_HEADER_NAME@,
    {
        USN_HEADER_NAME
    }

    /// Parse the raw lines of a USN header.
    pub fn parse_header(raw: &[Vec<u8>]) -> (r: Option<USN>)
        ensures
            r matches Some(u) ==> spec_parse_usn(seq_views(raw@)) == Some(
                (u.0@, match u.1 {
                    Some(second) => Some(second@),
                    None => None,
                }),
            ),
            r is None ==> spec_parse_usn(seq_views(raw@)) is None,
    {
        if raw.len() != 1 {
            return None;
        }
        parse_usn_bytes(raw[0].as_slice())
    }
}

} // verus!
