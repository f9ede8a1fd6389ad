//! The FieldPair parser: decomposes a colon-delimited header token into one
//! of UPnP keyword, UUID, URN, or an unknown key/value pair.
//!
//! Only the first colon of the token is structurally significant; everything
//! after it is carried verbatim in the variant payload, so a value that
//! itself contains colons (a double colon included) is legal data.

use vstd::prelude::*;
use vstd::string::StringSliceAdditionalSpecFns;

use crate::bytes::{bytes_eq, find_byte, sub_to_vec, COLON};

verus! {

/// A header token split on its first colon.
///
/// The key candidates `upnp`, `uuid` and `urn` select the matching variant,
/// which carries only the value; any other non-empty key produces `Unknown`
/// carrying both parts.
#[derive(Clone, PartialEq, Eq, Hash, Debug)]
pub enum FieldPair {
    /// Bare UPnP keyword, such as `rootdevice`.
    UPnP(Vec<u8>),
    /// UUID text (canonically 36 bytes, carried as given).
    UUID(Vec<u8>),
    /// Colon-separated schema:class:type:version string.
    URN(Vec<u8>),
    /// Opaque key/value split on the first colon.
    Unknown(Vec<u8>, Vec<u8>),
}

/// The mathematical value of a [`FieldPair`].
pub ghost enum FieldView {
    UPnP(Seq<u8>),
    UUID(Seq<u8>),
    URN(Seq<u8>),
    Unknown(Seq<u8>, Seq<u8>),
}

impl View for FieldPair {
    type V = FieldView;

    open spec fn view(&self) -> FieldView {
        match self {
            FieldPair::UPnP(v) => FieldView::UPnP(v@),
            FieldPair::UUID(v) => FieldView::UUID(v@),
            FieldPair::URN(v) => FieldView::URN(v@),
            FieldPair::Unknown(k, v) => FieldView::Unknown(k@, v@),
        }
    }
}

/// The key that selects [`FieldPair::UPnP`].
pub open spec fn upnp_key() -> Seq<u8> {
    "upnp".spec_bytes()
}

/// The key that selects [`FieldPair::UUID`].
pub open spec fn uuid_key() -> Seq<u8> {
    "uuid".spec_bytes()
}

/// The key that selects [`FieldPair::URN`].
pub open spec fn urn_key() -> Seq<u8> {
    "urn".spec_bytes()
}

/// The index of the first colon of `b`, provided it does not stand first:
/// a token must have a non-empty key to be a field pair.
pub open spec fn spec_key_split(b: Seq<u8>) -> Option<int> {
    match b.index_of_first(COLON) {
        Some(i) => if i > 0 {
            Some(i)
        } else {
            None
        },
        None => None,
    }
}

/// The field pair denoted by a raw token: the bytes before the first colon
/// are the key, the bytes after it the value, kept verbatim.
pub open spec fn spec_parse_field(b: Seq<u8>) -> Option<FieldView> {
    match spec_key_split(b) {
        None => None,
        Some(i) => {
            let key = b.take(i);
            let value = b.skip(i + 1);
            if key == upnp_key() {
                Some(FieldView::UPnP(value))
            } else if key == uuid_key() {
                Some(FieldView::UUID(value))
            } else if key == urn_key() {
                Some(FieldView::URN(value))
            } else {
                Some(FieldView::Unknown(key, value))
            }
        },
    }
}

/// The raw token denoted by a field pair: its key, a colon, and its value.
pub open spec fn spec_encode_field(f: FieldView) -> Seq<u8> {
    match f {
        FieldView::UPnP(v) => upnp_key() + seq![COLON] + v,
        FieldView::UUID(v) => uuid_key() + seq![COLON] + v,
        FieldView::URN(v) => urn_key() + seq![COLON] + v,
        FieldView::Unknown(k, v) => k + seq![COLON] + v,
    }
}

impl FieldPair {
    /// Split a raw header token on its first colon into a field pair.
    ///
    /// An empty input, an input without a colon, or one whose first colon
    /// stands first (an empty key) is no field pair.
    pub fn new(field: &[u8]) -> (r: Option<FieldPair>)
        ensures
            r matches Some(fp) ==> spec_parse_field(field@) == Some(fp@),
            r is None ==> spec_parse_field(field@) is None,
    {
        let split = match find_byte(field, COLON) {
            Some(i) => i,
            None => {
                proof {
                    field@.index_of_first_ensures(COLON);
                }
                return None;
            },
        };
        proof {
            field@.index_of_first_ensures(COLON);
            let fi = field@.index_of_first(COLON);
            assert(fi matches Some(j) && j == split) by {
                assert(field@.contains(COLON)) by {
                    assert(field@[split as int] == COLON);
                }
            }
        }
        if split == 0 {
            return None;
        }
        let n = field.len();
        assert(split < n);
        let key = slice_subrange_checked(field, 0, split);
        let value = sub_to_vec(field, split + 1, n);
        assert(key@ =~= field@.take(split as int));
        assert(value@ =~= field@.skip(split + 1));
        if bytes_eq(key, "upnp".as_bytes()) {
            Some(FieldPair::UPnP(value))
        } else if bytes_eq(key, "uuid".as_bytes()) {
            Some(FieldPair::UUID(value))
        } else if bytes_eq(key, "urn".as_bytes()) {
            Some(FieldPair::URN(value))
        } else {
            Some(FieldPair::Unknown(sub_to_vec(field, 0, split), value))
        }
    }

    /// Reassemble the raw token this field pair stands for.
    pub fn to_bytes(&self) -> (r: Vec<u8>)
        ensures
            r@ == spec_encode_field(self@),
    {
        let (key, value): (&[u8], &Vec<u8>) = match self {
            FieldPair::UPnP(v) => ("upnp".as_bytes(), v),
            FieldPair::UUID(v) => ("uuid".as_bytes(), v),
            FieldPair::URN(v) => ("urn".as_bytes(), v),
            FieldPair::Unknown(k, v) => (k.as_slice(), v),
        };
        let mut out: Vec<u8> = Vec::new();
        let mut i: usize = 0;
        while i < key.len()
            invariant
                0 <= i <= key@.len(),
                out@ =~= key@.take(i as int),
            decreases key@.len() - i,
        {
            out.push(key[i]);
            i += 1;
        }
        assert(out@ =~= key@);
        out.push(COLON);
        let mut j: usize = 0;
        while j < value.len()
            invariant
                0 <= j <= value@.len(),
                out@ =~= key@ + seq![COLON] + value@.take(j as int),
            decreases value@.len() - j,
        {
            out.push(value[j]);
            j += 1;
        }
        assert(out@ =~= key@ + seq![COLON] + value@);
        out
    }
}

/// Take a subrange of a slice (thin rename of the vstd helper so that the
/// parser reads uniformly).
fn slice_subrange_checked<'a>(s: &'a [u8], i: usize, j: usize) -> (r: &'a [u8])
    requires
        0 <= i <= j <= s@.len(),
    ensures
        r@ == s@.subrange(i as int, j as int),
{
    vstd::slice::slice_subrange(s, i, j)
}

/// Parsing a token and reassembling the result reproduces the original
/// byte string exactly; in particular a value with a leading colon (the
/// double-colon case) is preserved verbatim.
pub proof fn lemma_field_round_trip(b: Seq<u8>)
    requires
        spec_parse_field(b) is Some,
    ensures
        spec_encode_field(spec_parse_field(b)->Some_0) =~= b,
{
    b.index_of_first_ensures(COLON);
    let i = spec_key_split(b)->Some_0;
    let key = b.take(i);
    let value = b.skip(i + 1);
    assert(b[i] == COLON);
    assert(key + seq![COLON] + value =~= b);
    if key == upnp_key() {
        assert(spec_encode_field(spec_parse_field(b)->Some_0) =~= b);
    } else if key == uuid_key() {
        assert(spec_encode_field(spec_parse_field(b)->Some_0) =~= b);
    } else if key == urn_key() {
        assert(spec_encode_field(spec_parse_field(b)->Some_0) =~= b);
    } else {
        assert(spec_encode_field(spec_parse_field(b)->Some_0) =~= b);
    }
}

/// The split of a token built as a colon-free, non-empty key, a colon, and a
/// value: the key and the value come back as built.
pub proof fn lemma_key_split_of_concat(key: Seq<u8>, v: Seq<u8>)
    requires
        key.len() > 0,
        forall|i: int| 0 <= i < key.len() ==> key[i] != COLON,
    ensures
        spec_key_split(key + seq![COLON] + v) == Some(key.len() as int),
        (key + seq![COLON] + v).take(key.len() as int) == key,
        (key + seq![COLON] + v).skip(key.len() as int + 1) == v,
{
    let s = key + seq![COLON] + v;
    s.index_of_first_ensures(COLON);
    assert(s[key.len() as int] == COLON);
    assert(s.contains(COLON));
    match s.index_of_first(COLON) {
        Some(k) => {
            assert(k >= key.len()) by {
                if k < key.len() {
                    assert(s[k] == key[k]);
                }
            }
            assert(k <= key.len()) by {
                if k > key.len() {
                    assert(s[key.len() as int] != COLON);
                }
            }
            assert(s.take(key.len() as int) =~= key);
            assert(s.skip(key.len() as int + 1) =~= v);
        },
        None => {
            assert(false);
        },
    }
}

/// A token built from the `uuid` key parses back to a UUID field pair
/// carrying its value, and one built from the `upnp` key to a UPnP field
/// pair.
pub proof fn lemma_parse_known_key_tokens(v: Seq<u8>)
    ensures
        spec_parse_field(uuid_key() + seq![COLON] + v) == Some(FieldView::UUID(v)),
        spec_parse_field(upnp_key() + seq![COLON] + v) == Some(FieldView::UPnP(v)),
{
    reveal_strlit("uuid");
    reveal_strlit("upnp");
    assert(vstd::utf8::is_ascii_chars("uuid"@));
    assert(vstd::utf8::is_ascii_chars("upnp"@));
    vstd::utf8::is_ascii_chars_encode_utf8("uuid"@);
    vstd::utf8::is_ascii_chars_encode_utf8("upnp"@);
    assert(uuid_key().len() == 4 && forall|i: int|
        0 <= i < 4 ==> uuid_key()[i] == "uuid"@[i] as u8);
    assert(upnp_key().len() == 4 && forall|i: int|
        0 <= i < 4 ==> upnp_key()[i] == "upnp"@[i] as u8);
    assert(forall|i: int| 0 <= i < uuid_key().len() ==> uuid_key()[i] != COLON);
    assert(forall|i: int| 0 <= i < upnp_key().len() ==> upnp_key()[i] != COLON);
    lemma_key_split_of_concat(uuid_key(), v);
    lemma_key_split_of_concat(upnp_key(), v);
    assert(uuid_key() != upnp_key()) by {
        assert(uuid_key()[1] == 117 && upnp_key()[1] == 112);
    }
}

} // verus!
