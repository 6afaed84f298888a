use vstd::prelude::*;

verus! {

/// Declares bincode's error kind so that its boxed form, `bincode::Error`, can
/// be carried through verified code.
#[verifier::external_type_specification]
#[verifier::external_body]
pub struct ExBincodeErrorKind(bincode::ErrorKind);

/// Number of bytes of the length field that opens a capsule.
pub const LENGTH_FIELD_SIZE: usize = 8;

/// The eight little-endian bytes of `n`.
pub open spec fn le_bytes_u64(n: u64) -> Seq<u8> {
    seq![
        (n & 0xff) as u8,
        ((n >> 8u64) & 0xff) as u8,
        ((n >> 16u64) & 0xff) as u8,
        ((n >> 24u64) & 0xff) as u8,
        ((n >> 32u64) & 0xff) as u8,
        ((n >> 40u64) & 0xff) as u8,
        ((n >> 48u64) & 0xff) as u8,
        ((n >> 56u64) & 0xff) as u8,
    ]
}

/// The number whose little-endian bytes are the first eight of `b`.
pub open spec fn u64_from_le(b: Seq<u8>) -> u64
    recommends
        b.len() >= 8,
{
    (b[0] as u64) | ((b[1] as u64) << 8u64) | ((b[2] as u64) << 16u64) | ((b[3] as u64) << 24u64)
        | ((b[4] as u64) << 32u64) | ((b[5] as u64) << 40u64) | ((b[6] as u64) << 48u64) | ((
    b[7] as u64) << 56u64)
}

/// The wire form of a capsule that carries `data`: the length of `data` as a
/// little-endian 64-bit number, then the bytes of `data`.
pub open spec fn capsule_bytes(data: Seq<u8>) -> Seq<u8> {
    le_bytes_u64(data.len() as u64) + data
}

/// The payload length that the first eight bytes of `b` declare.
pub open spec fn declared_len(b: Seq<u8>) -> int {
    u64_from_le(b) as int
}

/// `b` starts with a whole capsule: a length field and at least as many
/// payload bytes as it declares. Bytes after the payload are allowed.
pub open spec fn capsule_decodable(b: Seq<u8>) -> bool {
    b.len() >= 8 && 8 + declared_len(b) <= b.len()
}

/// The payload of the capsule at the start of `b`.
pub open spec fn capsule_payload(b: Seq<u8>) -> Seq<u8> {
    b.subrange(8, 8 + declared_len(b))
}

/// `bincode::serialize` on a byte vector, with bincode's default functions'
/// configuration (fixed-width integers, little endian, no size limit).
/// Claimed, from bincode 1.3.3's source: the call succeeds (the byte vector has
/// a known length, no limit applies and writing into a `Vec` cannot fail) and
/// yields the length as a little-endian `u64`, then the bytes.
#[verifier::external_body]
fn bincode_serialize_bytes(data: &Vec<u8>) -> (res: Result<Vec<u8>, bincode::Error>)
    ensures
        res is Ok,
        res matches Ok(v) ==> v@ == capsule_bytes(data@),
{
    bincode::serialize(data)
}

/// `bincode::deserialize::<Vec<u8>>` with bincode's default functions'
/// configuration. Claimed, from bincode 1.3.3's source: it reads a
/// little-endian `u64` length and then that many bytes, fails exactly when the
/// input is too short for either, and ignores bytes after the payload.
#[verifier::external_body]
fn bincode_deserialize_bytes(bytes: &[u8]) -> (res: Result<Vec<u8>, bincode::Error>)
    ensures
        res is Ok <==> capsule_decodable(bytes@),
        res matches Ok(v) ==> v@ == capsule_payload(bytes@),
{
    bincode::deserialize::<Vec<u8>>(bytes)
}

/// Why a datagram did not hold a capsule.
#[derive(Clone, Copy, Debug, PartialEq, Eq, Structural)]
pub enum CapsuleError {
    /// Fewer than eight bytes: there is no whole length field.
    TooShort,
    /// The length field declares more payload bytes than follow it.
    Truncated,
}

/// One TUN packet on its way through the tunnel.
#[derive(Debug)]
pub struct Capsule {
    pub data: Vec<u8>,
}

impl Capsule {
    /// The capsule that carries `data`.
    pub fn new(data: Vec<u8>) -> (res: Capsule)
        ensures
            res.data@ == data@,
    {
        Capsule { data }
    }

    /// The capsule that carries a copy of `data`.
    pub fn from_slice(data: &[u8]) -> (res: Capsule)
        ensures
            res.data@ == data@,
    {
        Capsule { data: vstd::slice::slice_to_vec(data) }
    }

    /// The bytes sent for this capsule (its bincode form: a struct of one
    /// field is written as that field).
    pub fn encode(&self) -> (res: Vec<u8>)
        ensures
            res@ == capsule_bytes(self.data@),
    {
        match bincode_serialize_bytes(&self.data) {
            Ok(v) => v,
            Err(_) => {
                proof {
                    assert(false);
                }
                Vec::new()
            },
        }
    }

    /// Reads the capsule at the start of `bytes`.
    pub fn decode(bytes: &[u8]) -> (res: Result<Capsule, CapsuleError>)
        ensures
            res is Ok <==> capsule_decodable(bytes@),
            res matches Ok(c) ==> c.data@ == capsule_payload(bytes@),
            res == Err::<Capsule, CapsuleError>(CapsuleError::TooShort) <==> bytes@.len() < 8,
            res == Err::<Capsule, CapsuleError>(CapsuleError::Truncated) <==> (bytes@.len() >= 8
                && !capsule_decodable(bytes@)),
    {
        match bincode_deserialize_bytes(bytes) {
            Ok(v) => Ok(Capsule { data: v }),
            Err(_) => {
                if bytes.len() < LENGTH_FIELD_SIZE {
                    Err(CapsuleError::TooShort)
                } else {
                    Err(CapsuleError::Truncated)
                }
            },
        }
    }
}

/// The length field of a capsule reads back the length that was written.
pub proof fn lemma_le_bytes_roundtrip(n: u64)
    ensures
        le_bytes_u64(n).len() == 8,
        u64_from_le(le_bytes_u64(n)) == n,
{
    let b = le_bytes_u64(n);
    assert(b[0] == (n & 0xff) as u8);
    assert(b[1] == ((n >> 8u64) & 0xff) as u8);
    assert(b[2] == ((n >> 16u64) & 0xff) as u8);
    assert(b[3] == ((n >> 24u64) & 0xff) as u8);
    assert(b[4] == ((n >> 32u64) & 0xff) as u8);
    assert(b[5] == ((n >> 40u64) & 0xff) as u8);
    assert(b[6] == ((n >> 48u64) & 0xff) as u8);
    assert(b[7] == ((n >> 56u64) & 0xff) as u8);
    assert(((n & 0xff) as u8 as u64) | ((((n >> 8u64) & 0xff) as u8 as u64) << 8u64) | ((((n
        >> 16u64) & 0xff) as u8 as u64) << 16u64) | ((((n >> 24u64) & 0xff) as u8 as u64)
        << 24u64) | ((((n >> 32u64) & 0xff) as u8 as u64) << 32u64) | ((((n >> 40u64) & 0xff)
        as u8 as u64) << 40u64) | ((((n >> 48u64) & 0xff) as u8 as u64) << 48u64) | ((((n
        >> 56u64) & 0xff) as u8 as u64) << 56u64) == n) by (bit_vector);
}

/// Decoding undoes encoding: the capsule written for `data`, followed by any
/// bytes at all, reads back as `data`.
pub proof fn lemma_capsule_roundtrip(data: Seq<u8>, rest: Seq<u8>)
    requires
        data.len() <= u64::MAX,
    ensures
        capsule_decodable(capsule_bytes(data) + rest),
        capsule_payload(capsule_bytes(data) + rest) == data,
{
    let n = data.len() as u64;
    lemma_le_bytes_roundtrip(n);
    let b = capsule_bytes(data) + rest;
    assert(b.take(8) =~= le_bytes_u64(n));
    assert(u64_from_le(b) == u64_from_le(le_bytes_u64(n)));
    assert(b.subrange(8, 8 + data.len() as int) =~= data);
}

/// Eight bytes read as a little-endian number and written back are the same
/// eight bytes.
proof fn lemma_le_bytes_of_value(b: Seq<u8>)
    requires
        b.len() == 8,
    ensures
        le_bytes_u64(u64_from_le(b)) == b,
{
    let (b0, b1, b2, b3, b4, b5, b6, b7) = (b[0], b[1], b[2], b[3], b[4], b[5], b[6], b[7]);
    let n = u64_from_le(b);
    assert(n == (b0 as u64) | ((b1 as u64) << 8u64) | ((b2 as u64) << 16u64) | ((b3 as u64)
        << 24u64) | ((b4 as u64) << 32u64) | ((b5 as u64) << 40u64) | ((b6 as u64) << 48u64)
        | ((b7 as u64) << 56u64));
    assert({
        &&& (n & 0xff) as u8 == b0
        &&& ((n >> 8u64) & 0xff) as u8 == b1
        &&& ((n >> 16u64) & 0xff) as u8 == b2
        &&& ((n >> 24u64) & 0xff) as u8 == b3
        &&& ((n >> 32u64) & 0xff) as u8 == b4
        &&& ((n >> 40u64) & 0xff) as u8 == b5
        &&& ((n >> 48u64) & 0xff) as u8 == b6
        &&& ((n >> 56u64) & 0xff) as u8 == b7
    }) by (bit_vector)
        requires
            n == (b0 as u64) | ((b1 as u64) << 8u64) | ((b2 as u64) << 16u64) | ((b3 as u64)
                << 24u64) | ((b4 as u64) << 32u64) | ((b5 as u64) << 40u64) | ((b6 as u64)
                << 48u64) | ((b7 as u64) << 56u64),
    ;
    assert(le_bytes_u64(n) =~= b);
}

/// Encoding undoes decoding: a decodable datagram starts with the capsule
/// written for its payload.
pub proof fn lemma_capsule_prefix(b: Seq<u8>)
    requires
        capsule_decodable(b),
    ensures
        b.take(8 + declared_len(b)) == capsule_bytes(capsule_payload(b)),
{
    let p = capsule_payload(b);
    lemma_le_bytes_of_value(b.take(8));
    assert(u64_from_le(b.take(8)) == u64_from_le(b));
    assert(p.len() as u64 == u64_from_le(b));
    assert(b.take(8 + declared_len(b)) =~= b.take(8) + p);
}

} // verus!
