//! The byte-level encodings that the conversions rely on: the parts of the
//! bincode format that the library reads and writes itself, and the
//! secp256k1 parsers that decide which byte strings are keys and signatures.
use vstd::prelude::*;

verus! {

/// The 8 bytes of `v`, least significant first.
pub open spec fn le_bytes(v: u64) -> Seq<u8> {
    seq![
        v as u8,
        (v >> 8u64) as u8,
        (v >> 16u64) as u8,
        (v >> 24u64) as u8,
        (v >> 32u64) as u8,
        (v >> 40u64) as u8,
        (v >> 48u64) as u8,
        (v >> 56u64) as u8,
    ]
}

/// The number whose little-endian bytes are the first 8 bytes of `s`.
pub open spec fn le_value(s: Seq<u8>) -> u64 {
    (s[0] as u64) | ((s[1] as u64) << 8u64) | ((s[2] as u64) << 16u64) | ((s[3] as u64) << 24u64)
        | ((s[4] as u64) << 32u64) | ((s[5] as u64) << 40u64) | ((s[6] as u64) << 48u64) | ((
    s[7] as u64) << 56u64)
}

/// Reading back the little-endian bytes of a number gives the number.
pub proof fn lemma_le_value_of_le_bytes(v: u64)
    ensures
        le_value(le_bytes(v)) == v,
{
    let b = le_bytes(v);
    assert(b[0] == v as u8);
    assert(b[1] == (v >> 8u64) as u8);
    assert(b[2] == (v >> 16u64) as u8);
    assert(b[3] == (v >> 24u64) as u8);
    assert(b[4] == (v >> 32u64) as u8);
    assert(b[5] == (v >> 40u64) as u8);
    assert(b[6] == (v >> 48u64) as u8);
    assert(b[7] == (v >> 56u64) as u8);
    assert(v == ((v as u8) as u64) | ((((v >> 8u64) as u8) as u64) << 8u64) | ((((v >> 16u64) as u8)
        as u64) << 16u64) | ((((v >> 24u64) as u8) as u64) << 24u64) | ((((v >> 32u64) as u8) as u64)
        << 32u64) | ((((v >> 40u64) as u8) as u64) << 40u64) | ((((v >> 48u64) as u8) as u64)
        << 48u64) | ((((v >> 56u64) as u8) as u64) << 56u64)) by (bit_vector);
}

/// The bincode encoding (fixed-width integers, little endian) of a block
/// height range: its start as a `u64`, then the tag of the optional limit
/// (0 for none, 1 for some) followed by the limit as a `u64`.
pub open spec fn height_range_bytes(start: u64, limit: Option<u64>) -> Seq<u8> {
    match limit {
        None => le_bytes(start) + seq![0u8],
        Some(l) => le_bytes(start) + seq![1u8] + le_bytes(l),
    }
}

/// What bincode reads from `s` as a block height range, or `None` when it
/// fails: the bytes after the range are ignored.
pub open spec fn height_range_read(s: Seq<u8>) -> Option<(u64, Option<u64>)> {
    if s.len() < 9 {
        None
    } else if s[8] == 0 {
        Some((le_value(s), None))
    } else if s[8] == 1 && s.len() >= 17 {
        Some((le_value(s), Some(le_value(s.subrange(9, 17)))))
    } else {
        None
    }
}

/// Reading the encoding of a block height range gives it back.
pub proof fn lemma_height_range_read_bytes(start: u64, limit: Option<u64>)
    ensures
        height_range_read(height_range_bytes(start, limit)) == Some((start, limit)),
{
    let s = height_range_bytes(start, limit);
    lemma_le_value_of_le_bytes(start);
    assert(s.subrange(0, 8) == le_bytes(start));
    assert(le_value(s) == le_value(le_bytes(start)));
    if let Some(l) = limit {
        lemma_le_value_of_le_bytes(l);
        assert(s.subrange(9, 17) == le_bytes(l));
    }
}

/// Calls `bincode::serialize` on the pair `(start, limit)`. In bincode 1.3
/// this writes `start` as 8 little-endian bytes, then 0 for a missing limit
/// or 1 and the limit's 8 little-endian bytes; serializing these plain
/// values into a vector does not fail.
#[verifier::external_body]
pub(crate) fn serialize_height_range(start: u64, limit: Option<u64>) -> (res: Result<
    Vec<u8>,
    bincode::Error,
>)
    ensures
        res is Ok,
        res matches Ok(b) ==> b@ == height_range_bytes(start, limit),
{
    bincode::serialize(&(start, limit))
}

/// Calls `bincode::deserialize::<(u64, Option<u64>)>`. In bincode 1.3 this
/// reads the format of `serialize_height_range`, fails when the bytes end
/// too early or the option tag is neither 0 nor 1, and ignores trailing
/// bytes.
#[verifier::external_body]
pub(crate) fn deserialize_height_range(bytes: &[u8]) -> (res: Result<
    (u64, Option<u64>),
    bincode::Error,
>)
    ensures
        res is Ok <==> height_range_read(bytes@) is Some,
        res matches Ok(v) ==> height_range_read(bytes@) == Some(v),
{
    bincode::deserialize::<(u64, Option<u64>)>(bytes)
}

/// Calls `bincode::deserialize::<[u8; 32]>` and returns the array as a
/// vector. In bincode 1.3 this reads the first 32 bytes and fails when
/// there are fewer; trailing bytes are ignored.
#[verifier::external_body]
pub(crate) fn deserialize_leading_hash(bytes: &[u8]) -> (res: Result<Vec<u8>, bincode::Error>)
    ensures
        res is Ok <==> bytes@.len() >= 32,
        res matches Ok(h) ==> h@ == bytes@.subrange(0, 32),
{
    match bincode::deserialize::<[u8; 32]>(bytes) {
        Ok(h) => Ok(h.to_vec()),
        Err(e) => Err(e),
    }
}

/// The number whose little-endian bytes are the first 4 bytes of `s`.
pub open spec fn le_value32(s: Seq<u8>) -> u32 {
    (s[0] as u32) | ((s[1] as u32) << 8u32) | ((s[2] as u32) << 16u32) | ((s[3] as u32) << 24u32)
}

/// Calls `bincode::deserialize::<u32>`, which is how bincode 1.3 reads the
/// variant index that begins the encoding of an enum: the first 4 bytes,
/// little endian. It fails when there are fewer; trailing bytes are
/// ignored.
#[verifier::external_body]
pub(crate) fn deserialize_variant_index(bytes: &[u8]) -> (res: Result<u32, bincode::Error>)
    ensures
        res is Ok <==> bytes@.len() >= 4,
        res matches Ok(v) ==> v == le_value32(bytes@),
{
    bincode::deserialize::<u32>(bytes)
}

/// Whether `s` can be the bincode encoding of an enum as far as its first
/// part goes: it holds the 4-byte variant index.
pub open spec fn holds_variant_index(s: Seq<u8>) -> bool {
    s.len() >= 4
}

/// Whether bincode can read from `s` the list that heads it, each element
/// taken as at least one byte: an 8-byte length, then no more elements than
/// bytes remain. Every element of the lists read this way (signatures of a
/// certificate, message bundles) encodes to at least one byte, so a list
/// outside this bound cannot be decoded.
pub open spec fn holds_list(s: Seq<u8>) -> bool {
    s.len() >= 8 && le_value(s) <= s.len() - 8
}

/// Calls `bincode::deserialize::<Vec<u8>>` and returns the length of the
/// vector read. In bincode 1.3 this reads an 8-byte little-endian length,
/// then that many bytes, one per element; it fails when the bytes end
/// first, and ignores trailing bytes.
#[verifier::external_body]
pub(crate) fn deserialize_list_length(bytes: &[u8]) -> (res: Result<u64, bincode::Error>)
    ensures
        res is Ok <==> holds_list(bytes@),
        res matches Ok(n) ==> n == le_value(bytes@),
{
    match bincode::deserialize::<Vec<u8>>(bytes) {
        Ok(v) => Ok(v.len() as u64),
        Err(e) => Err(e),
    }
}

/// The compressed SEC1 encoding (33 bytes) of the secp256k1 public key that
/// `k256` parses from the SEC1 encoding `bytes`, or `None` when `k256`
/// rejects them.
pub uninterp spec fn secp256k1_compressed_key(bytes: Seq<u8>) -> Option<Seq<u8>>;

/// Parses `bytes` with `k256::ecdsa::VerifyingKey::from_sec1_bytes` and, on
/// success, returns `to_encoded_point(true)` of the key. The contract names
/// the result; it adds that a compressed encoding is 33 bytes long and that
/// parsing the compressed encoding of a key gives back the same encoding.
#[verifier::external_body]
pub(crate) fn parse_secp256k1_key(bytes: &[u8]) -> (res: Option<Vec<u8>>)
    ensures
        res is Some <==> secp256k1_compressed_key(bytes@) is Some,
        res matches Some(c) ==> {
            &&& secp256k1_compressed_key(bytes@) == Some(c@)
            &&& c@.len() == 33
            &&& secp256k1_compressed_key(c@) == Some(c@)
        },
{
    match k256::ecdsa::VerifyingKey::from_sec1_bytes(bytes) {
        Ok(key) => Some(key.to_encoded_point(true).as_bytes().to_vec()),
        Err(_) => None,
    }
}

/// The order of the secp256k1 group.
pub open spec fn secp256k1_order() -> nat {
    0xFFFFFFFFFFFFFFFFFFFFFFFFFFFFFFFEBAAEDCE6AF48A03BBFD25E8CD0364141nat
}

/// The number that the bytes of `s` write in big-endian order.
pub open spec fn big_endian(s: Seq<u8>) -> nat
    decreases s.len(),
{
    if s.len() == 0 {
        0
    } else {
        big_endian(s.drop_last()) * 256 + s.last() as nat
    }
}

/// Whether `s` is a scalar of a secp256k1 ECDSA signature: nonzero and below
/// the group order.
pub open spec fn is_signature_scalar(s: Seq<u8>) -> bool {
    0 < big_endian(s) < secp256k1_order()
}

/// Whether `bytes` is a secp256k1 ECDSA signature `r || s`: 64 bytes, each
/// half a scalar in big-endian order.
pub open spec fn is_secp256k1_signature(bytes: Seq<u8>) -> bool {
    &&& bytes.len() == 64
    &&& is_signature_scalar(bytes.subrange(0, 32))
    &&& is_signature_scalar(bytes.subrange(32, 64))
}

/// Calls `k256::ecdsa::Signature::from_slice`, which accepts exactly 64
/// bytes whose two 32-byte halves are big-endian integers in `1..n`, `n`
/// being the group order. Since `to_bytes` of the parsed signature writes
/// the same two halves back, the accepted bytes are the signature's
/// encoding.
#[verifier::external_body]
pub(crate) fn is_valid_secp256k1_signature(bytes: &[u8]) -> (res: bool)
    ensures
        res == is_secp256k1_signature(bytes@),
{
    match k256::ecdsa::Signature::from_slice(bytes) {
        Ok(_) => true,
        Err(_) => false,
    }
}

} // verus!
