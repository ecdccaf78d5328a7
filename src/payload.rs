//! Field extraction from delegated-registration payloads.
//!
//! A payload is a text in which each field appears as `"name":"value"`. A
//! field's value starts right after the first `"name":"` in the text and runs
//! up to the next double quote.
use vstd::prelude::*;
use vstd::string::*;
use vstd::utf8::valid_utf8;
use crate::primitives::{address_from_text, is_address_text, is_utf8, parse_address, Address};

verus! {

/// The double-quote byte.
pub const QUOTE: u8 = 34;

/// The colon byte.
pub const COLON: u8 = 58;

/// `p` occurs in `s` starting at index `i`.
pub open spec fn occurs_at(s: Seq<u8>, p: Seq<u8>, i: int) -> bool {
    0 <= i && i + p.len() <= s.len() && s.subrange(i, i + p.len()) == p
}

/// `i` is the first index at which `p` occurs in `s`.
pub open spec fn first_occurrence(s: Seq<u8>, p: Seq<u8>, i: int) -> bool {
    occurs_at(s, p, i) && forall|j: int| 0 <= j < i ==> !occurs_at(s, p, j)
}

/// `e` is the first index at or after `b` that holds a double quote.
pub open spec fn first_quote_from(s: Seq<u8>, b: int, e: int) -> bool {
    b <= e < s.len() && s[e] == QUOTE && forall|k: int| b <= k < e ==> s[k] != QUOTE
}

/// The text that introduces the value of field `key`: `"key":"`.
pub open spec fn field_marker(key: Seq<u8>) -> Seq<u8> {
    seq![QUOTE] + key + seq![QUOTE, COLON, QUOTE]
}

/// The value of field `key` in `s`, if the field is present and its value is
/// closed by a double quote.
pub open spec fn field_value(s: Seq<u8>, key: Seq<u8>) -> Option<Seq<u8>> {
    let m = field_marker(key);
    if exists|i: int| first_occurrence(s, m, i) {
        let i = choose|i: int| first_occurrence(s, m, i);
        let b = i + m.len();
        if exists|e: int| first_quote_from(s, b, e) {
            let e = choose|e: int| first_quote_from(s, b, e);
            Some(s.subrange(b, e))
        } else {
            None
        }
    } else {
        None
    }
}

/// True when `p` occurs in `s` at index `i`.
fn matches_at(s: &[u8], p: &[u8], i: usize) -> (r: bool)
    requires
        i + p@.len() <= s@.len(),
    ensures
        r == occurs_at(s@, p@, i as int),
{
    let sl = s.len();
    let mut k: usize = 0;
    while k < p.len()
        invariant
            sl == s@.len(),
            i + p@.len() <= s@.len(),
            0 <= k <= p@.len(),
            forall|j: int| 0 <= j < k ==> s@[i + j] == p@[j],
        decreases p@.len() - k,
    {
        if s[i + k] != p[k] {
            assert(s@.subrange(i as int, i + p@.len())[k as int] != p@[k as int]);
            return false;
        }
        k = k + 1;
    }
    assert(s@.subrange(i as int, i + p@.len()) =~= p@);
    true
}

/// The first index at which `p` occurs in `s`.
fn find_first(s: &[u8], p: &[u8]) -> (r: Option<usize>)
    ensures
        r matches Some(i) ==> first_occurrence(s@, p@, i as int),
        r is None ==> forall|j: int| !occurs_at(s@, p@, j),
{
    if p.len() > s.len() {
        return None;
    }
    let last = s.len() - p.len();
    let mut i: usize = 0;
    loop
        invariant
            last == s@.len() - p@.len(),
            0 <= i <= last,
            forall|j: int| 0 <= j < i ==> !occurs_at(s@, p@, j),
        decreases last - i,
    {
        if matches_at(s, p, i) {
            return Some(i);
        }
        if i == last {
            return None;
        }
        i = i + 1;
    }
}

/// The first index at or after `b` that holds a double quote.
fn find_quote(s: &[u8], b: usize) -> (r: Option<usize>)
    requires
        b <= s@.len(),
    ensures
        r matches Some(e) ==> first_quote_from(s@, b as int, e as int),
        r is None ==> forall|e: int| !first_quote_from(s@, b as int, e),
{
    let mut k: usize = b;
    while k < s.len()
        invariant
            b <= k <= s@.len(),
            forall|j: int| b <= j < k ==> s@[j] != QUOTE,
        decreases s@.len() - k,
    {
        if s[k] == QUOTE {
            return Some(k);
        }
        k = k + 1;
    }
    None
}

/// Copies `s[b..e]` into a new vector.
fn copy_range(s: &[u8], b: usize, e: usize) -> (r: Vec<u8>)
    requires
        b <= e <= s@.len(),
    ensures
        r@ == s@.subrange(b as int, e as int),
{
    let mut out: Vec<u8> = Vec::new();
    let mut k: usize = b;
    while k < e
        invariant
            b <= k <= e <= s@.len(),
            out@ == s@.subrange(b as int, k as int),
        decreases e - k,
    {
        out.push(s[k]);
        k = k + 1;
        assert(out@ =~= s@.subrange(b as int, k as int));
    }
    out
}

/// The marker `"key":"` as bytes.
fn marker_of(key: &str) -> (r: Vec<u8>)
    ensures
        r@ == field_marker(key.spec_bytes()),
{
    let kb = key.as_bytes();
    let mut out: Vec<u8> = Vec::new();
    out.push(QUOTE);
    let mut k: usize = 0;
    while k < kb.len()
        invariant
            0 <= k <= kb@.len(),
            out@ == seq![QUOTE] + kb@.subrange(0, k as int),
        decreases kb@.len() - k,
    {
        out.push(kb[k]);
        k = k + 1;
        assert(out@ =~= seq![QUOTE] + kb@.subrange(0, k as int));
    }
    out.push(QUOTE);
    out.push(COLON);
    out.push(QUOTE);
    assert(kb@.subrange(0, kb@.len() as int) =~= kb@);
    assert(out@ =~= field_marker(key.spec_bytes()));
    out
}

/// The value of field `key` in `text`: what stands between the first
/// `"key":"` and the next double quote.
pub fn field(text: &[u8], key: &str) -> (r: Option<Vec<u8>>)
    ensures
        r matches Some(v) ==> field_value(text@, key.spec_bytes()) == Some(v@),
        r is None ==> field_value(text@, key.spec_bytes()) is None,
{
    let marker = marker_of(key);
    let ghost m = field_marker(key.spec_bytes());
    match find_first(text, marker.as_slice()) {
        None => {
            assert(!exists|i: int| first_occurrence(text@, m, i));
            None
        },
        Some(i) => {
            let ghost ci = choose|j: int| first_occurrence(text@, m, j);
            assert(ci == i) by {
                if ci < i {
                    assert(!occurs_at(text@, m, ci));
                } else if i < ci {
                    assert(!occurs_at(text@, m, i as int));
                }
            }
            let tl = text.len();
            assert(i + marker@.len() <= tl);
            let b = i + marker.len();
            match find_quote(text, b) {
                None => None,
                Some(e) => {
                    let ghost ce = choose|k: int| first_quote_from(text@, b as int, k);
                    assert(ce == e) by {
                        if ce < e {
                            assert(text@[ce] != QUOTE);
                        } else if e < ce {
                            assert(text@[e as int] != QUOTE);
                        }
                    }
                    Some(copy_range(text, b, e))
                },
            }
        },
    }
}


/// Name of the device identifier field.
pub const DEVICE_ID_KEY: &'static str = "device_id";

/// Name of the DID document field.
pub const DID_DOCUMENT_KEY: &'static str = "did_document";

/// Name of the optional public key field.
pub const PUBLIC_KEY_KEY: &'static str = "public_key";

/// Name of the optional device type field.
pub const DEVICE_TYPE_KEY: &'static str = "device_type";

/// Name of the owner address field.
pub const OWNER_ADDRESS_KEY: &'static str = "owner_address";

/// The device type recorded when a payload names none: `iot`.
pub open spec fn default_device_type() -> Seq<u8> {
    seq![105u8, 111u8, 116u8]
}

/// The fields of a delegated registration, as byte strings.
pub struct DelegatedFields {
    pub device_id: Seq<u8>,
    pub did_document: Seq<u8>,
    pub public_key: Seq<u8>,
    pub device_type: Seq<u8>,
    pub owner: Seq<u8>,
}

/// What a delegated-registration payload holds, or `None` when it is not
/// UTF-8, lacks `device_id`, `did_document` or `owner_address`, or its owner
/// address does not parse. A missing public key reads as empty, a missing
/// device type as `iot`.
pub open spec fn delegated_fields(p: Seq<u8>) -> Option<DelegatedFields> {
    let id = field_value(p, DEVICE_ID_KEY.spec_bytes());
    let did = field_value(p, DID_DOCUMENT_KEY.spec_bytes());
    let pk = field_value(p, PUBLIC_KEY_KEY.spec_bytes());
    let ty = field_value(p, DEVICE_TYPE_KEY.spec_bytes());
    let ow = field_value(p, OWNER_ADDRESS_KEY.spec_bytes());
    if valid_utf8(p) && id is Some && did is Some && ow is Some && is_address_text(ow->0) {
        Some(
            DelegatedFields {
                device_id: id->0,
                did_document: did->0,
                public_key: if pk is Some {
                    pk->0
                } else {
                    Seq::empty()
                },
                device_type: if ty is Some {
                    ty->0
                } else {
                    default_device_type()
                },
                owner: address_from_text(ow->0),
            },
        )
    } else {
        None
    }
}

/// A decoded delegated registration.
pub struct DelegatedRegistration {
    pub device_id: Vec<u8>,
    pub did_document: Vec<u8>,
    pub public_key: Vec<u8>,
    pub device_type: Vec<u8>,
    pub owner: Address,
}

impl View for DelegatedRegistration {
    type V = DelegatedFields;

    open spec fn view(&self) -> DelegatedFields {
        DelegatedFields {
            device_id: self.device_id@,
            did_document: self.did_document@,
            public_key: self.public_key@,
            device_type: self.device_type@,
            owner: self.owner@,
        }
    }
}

/// Decodes a delegated-registration payload.
pub fn parse_delegated(payload: &[u8]) -> (r: Option<DelegatedRegistration>)
    ensures
        r is None ==> delegated_fields(payload@) is None,
        r matches Some(d) ==> delegated_fields(payload@) == Some(d@),
{
    if !is_utf8(payload) {
        return None;
    }
    let device_id = match field(payload, DEVICE_ID_KEY) {
        Some(v) => v,
        None => return None,
    };
    let did_document = match field(payload, DID_DOCUMENT_KEY) {
        Some(v) => v,
        None => return None,
    };
    let public_key = match field(payload, PUBLIC_KEY_KEY) {
        Some(v) => v,
        None => Vec::new(),
    };
    let device_type = match field(payload, DEVICE_TYPE_KEY) {
        Some(v) => v,
        None => {
            let v: Vec<u8> = vec![105u8, 111u8, 116u8];
            assert(v@ =~= default_device_type());
            v
        },
    };
    let owner_text = match field(payload, OWNER_ADDRESS_KEY) {
        Some(v) => v,
        None => return None,
    };
    let owner = match parse_address(owner_text.as_slice()) {
        Some(a) => a,
        None => return None,
    };
    let r = DelegatedRegistration { device_id, did_document, public_key, device_type, owner };
    assert(public_key@ =~= delegated_fields(payload@)->0.public_key);
    Some(r)
}

} // verus!
