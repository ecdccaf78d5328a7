//! Fixed-size byte values: addresses and 32-byte hashes, and the hash function.
use vstd::prelude::*;
use vstd::utf8::valid_utf8;

verus! {

/// A 20-byte account address; all zero bytes is the "no address" sentinel.
#[derive(Clone, Copy, Debug, PartialEq, Eq)]
pub struct Address {
    pub bytes: [u8; 20],
}

/// A 32-byte digest naming a device or a data submission.
#[derive(Clone, Copy, Debug, PartialEq, Eq)]
pub struct Hash32 {
    pub bytes: [u8; 32],
}

impl View for Address {
    type V = Seq<u8>;

    open spec fn view(&self) -> Seq<u8> {
        self.bytes@
    }
}

impl View for Hash32 {
    type V = Seq<u8>;

    open spec fn view(&self) -> Seq<u8> {
        self.bytes@
    }
}

/// A byte string made only of zero bytes.
pub open spec fn all_zero(s: Seq<u8>) -> bool {
    forall|i: int| 0 <= i < s.len() ==> s[i] == 0
}

/// The 20 zero bytes of the "no address" sentinel.
pub open spec fn zero_address() -> Seq<u8> {
    Seq::new(20, |i: int| 0u8)
}

/// Byte-wise equality of two byte slices.
pub fn bytes_equal(a: &[u8], b: &[u8]) -> (r: bool)
    ensures
        r == (a@ == b@),
{
    if a.len() != b.len() {
        return false;
    }
    let mut i: usize = 0;
    while i < a.len()
        invariant
            a@.len() == b@.len(),
            0 <= i <= a@.len(),
            forall|j: int| 0 <= j < i ==> a@[j] == b@[j],
        decreases a@.len() - i,
    {
        if a[i] != b[i] {
            return false;
        }
        i = i + 1;
    }
    assert(a@ =~= b@);
    true
}

impl Address {
    /// The zero address.
    pub fn zero() -> (r: Address)
        ensures
            r@ == zero_address(),
    {
        let r = Address { bytes: [0u8; 20] };
        assert(r@ =~= zero_address());
        r
    }

    /// True when every byte is zero.
    pub fn is_zero(&self) -> (r: bool)
        ensures
            r == all_zero(self@),
    {
        let mut i: usize = 0;
        while i < 20
            invariant
                0 <= i <= 20,
                self@.len() == 20,
                forall|j: int| 0 <= j < i ==> self@[j] == 0,
            decreases 20 - i,
        {
            if self.bytes[i] != 0 {
                return false;
            }
            i = i + 1;
        }
        true
    }

    /// Byte-wise equality with another address.
    pub fn same(&self, other: &Address) -> (r: bool)
        ensures
            r == (self@ == other@),
    {
        bytes_equal(self.bytes.as_slice(), other.bytes.as_slice())
    }
}

impl Hash32 {
    /// The all-zero hash.
    pub fn zero() -> (r: Hash32)
        ensures
            all_zero(r@),
            r@.len() == 32,
    {
        Hash32 { bytes: [0u8; 32] }
    }

    /// Byte-wise equality with another hash.
    pub fn same(&self, other: &Hash32) -> (r: bool)
        ensures
            r == (self@ == other@),
    {
        bytes_equal(self.bytes.as_slice(), other.bytes.as_slice())
    }
}

/// A hash result with the hash seen as bytes.
pub open spec fn hash_result<E>(r: Result<Hash32, E>) -> Result<Seq<u8>, E> {
    match r {
        Ok(h) => Ok(h@),
        Err(e) => Err(e),
    }
}

/// The keccak-256 digest of a byte string.
pub uninterp spec fn keccak_of(data: Seq<u8>) -> Seq<u8>;

/// Relies on stylus_sdk::crypto::keccak, which returns alloy_primitives::keccak256
/// of its input: a 32-byte digest that depends on the input bytes alone.
#[verifier::external_body]
fn keccak(data: &[u8]) -> (r: [u8; 32])
    ensures
        r@ == keccak_of(data@),
{
    stylus_sdk::crypto::keccak(data).0
}

/// The keccak-256 digest of `data`.
pub fn hash_bytes(data: &[u8]) -> (r: Hash32)
    ensures
        r@ == keccak_of(data@),
{
    Hash32 { bytes: keccak(data) }
}


/// An ASCII hexadecimal digit, in either case.
pub open spec fn is_hex_digit(b: u8) -> bool {
    (48 <= b <= 57) || (97 <= b <= 102) || (65 <= b <= 70)
}

/// The value of a hexadecimal digit.
pub open spec fn hex_value(b: u8) -> int {
    if 48 <= b <= 57 {
        b - 48
    } else if 97 <= b <= 102 {
        b - 87
    } else {
        b - 55
    }
}

/// The text with a leading `0x` or `0X` removed, if it has one.
pub open spec fn strip_hex_prefix(s: Seq<u8>) -> Seq<u8> {
    if s.len() >= 2 && s[0] == 48 && (s[1] == 120 || s[1] == 88) {
        s.subrange(2, s.len() as int)
    } else {
        s
    }
}

/// Text that spells an address: an optional `0x` prefix, then exactly forty
/// hexadecimal digits.
pub open spec fn is_address_text(s: Seq<u8>) -> bool {
    let t = strip_hex_prefix(s);
    t.len() == 40 && forall|i: int| 0 <= i < 40 ==> is_hex_digit(#[trigger] t[i])
}

/// The address that a text spells, two digits per byte, most significant first.
pub open spec fn address_from_text(s: Seq<u8>) -> Seq<u8> {
    let t = strip_hex_prefix(s);
    Seq::new(20, |i: int| (hex_value(t[2 * i]) * 16 + hex_value(t[2 * i + 1])) as u8)
}

/// Relies on the hex decoding behind alloy_primitives' `Address` parser
/// (`FromHex`, which `FromStr` calls): it strips one `0x`/`0X` prefix and
/// accepts exactly forty hex digits of either case, decoding two per byte.
#[verifier::external_body]
fn decode_address(text: &[u8]) -> (r: Option<[u8; 20]>)
    ensures
        r.is_some() == is_address_text(text@),
        r matches Some(a) ==> a@ == address_from_text(text@),
{
    <stylus_sdk::alloy_primitives::Address as stylus_sdk::alloy_primitives::hex::FromHex>::from_hex(
        text,
    ).ok().map(|a| a.0.0)
}

/// Parses an address written as forty hex digits, with or without `0x`.
pub fn parse_address(text: &[u8]) -> (r: Option<Address>)
    ensures
        r.is_some() == is_address_text(text@),
        r matches Some(a) ==> a@ == address_from_text(text@),
{
    match decode_address(text) {
        Some(bytes) => Some(Address { bytes }),
        None => None,
    }
}

/// Relies on core::str::from_utf8, which accepts exactly the well-formed
/// UTF-8 byte strings.
#[verifier::external_body]
pub(crate) fn is_utf8(data: &[u8]) -> (r: bool)
    ensures
        r == valid_utf8(data@),
{
    core::str::from_utf8(data).is_ok()
}

} // verus!
