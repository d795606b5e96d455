//! The wire codec: an experiment descriptor as exactly 25 bytes.
//!
//! Layout (multi-byte fields big-endian):
//! byte 0: transport tag (0 = TCP, 1 = UDP);
//! byte 1: address-family tag (0 = IPv4, 1 = IPv6);
//! bytes 2..=17: the address, 16 bytes (IPv4: 12 zero bytes, then the 4
//! address octets; IPv6: all 16 octets);
//! bytes 18..=19: port; byte 20: side tag (0 = Rx, 1 = Tx);
//! bytes 21..=22: parallel; bytes 23..=24: duration.

use vstd::prelude::*;

use crate::netexp::{Host, NetExp, NetExpParams, Side};

verus! {

/// Why a byte buffer failed to decode as an experiment descriptor.
#[derive(Clone, Copy, Debug, PartialEq, Eq, Structural)]
pub enum DecodeError {
    /// Fewer than 25 bytes were supplied.
    TruncatedInput,
    /// Byte 0 is neither 0 (TCP) nor 1 (UDP).
    InvalidTransportTag,
    /// Byte 1 is neither 0 (IPv4) nor 1 (IPv6).
    InvalidAddressFamilyTag,
    /// Byte 20 is neither 0 (Rx) nor 1 (Tx).
    InvalidSideTag,
}

/// The number of wire bytes of an encoded descriptor.
pub const WIRE_LEN: usize = 25;

/// The transport tag byte of a descriptor.
pub open spec fn transport_tag(e: NetExp) -> u8 {
    match e {
        NetExp::Tcp(_) => 0,
        NetExp::Udp(_) => 1,
    }
}

/// The address-family tag byte of a host.
pub open spec fn family_tag(h: Host) -> u8 {
    match h {
        Host::V4(_) => 0,
        Host::V6(_) => 1,
    }
}

/// The side tag byte of a role.
pub open spec fn side_tag(s: Side) -> u8 {
    match s {
        Side::Rx => 0,
        Side::Tx => 1,
    }
}

/// The 16 address bytes of a host: for IPv4, 12 zero bytes of padding and
/// then the 4 address octets; for IPv6, the 16 address octets. Big-endian.
pub open spec fn host_octets(h: Host) -> Seq<u8> {
    match h {
        Host::V4(a) => seq![
            0u8, 0u8, 0u8, 0u8, 0u8, 0u8, 0u8, 0u8, 0u8, 0u8, 0u8, 0u8,
            ((a >> 24) & 0xff) as u8,
            ((a >> 16) & 0xff) as u8,
            ((a >> 8) & 0xff) as u8,
            (a & 0xff) as u8,
        ],
        Host::V6(a) => seq![
            ((a >> 120) & 0xff) as u8,
            ((a >> 112) & 0xff) as u8,
            ((a >> 104) & 0xff) as u8,
            ((a >> 96) & 0xff) as u8,
            ((a >> 88) & 0xff) as u8,
            ((a >> 80) & 0xff) as u8,
            ((a >> 72) & 0xff) as u8,
            ((a >> 64) & 0xff) as u8,
            ((a >> 56) & 0xff) as u8,
            ((a >> 48) & 0xff) as u8,
            ((a >> 40) & 0xff) as u8,
            ((a >> 32) & 0xff) as u8,
            ((a >> 24) & 0xff) as u8,
            ((a >> 16) & 0xff) as u8,
            ((a >> 8) & 0xff) as u8,
            (a & 0xff) as u8,
        ],
    }
}

/// The 25 wire bytes of a descriptor.
pub open spec fn spec_encode(e: NetExp) -> Seq<u8> {
    let p = e.spec_params();
    let h = host_octets(p.host);
    seq![
        transport_tag(e),
        family_tag(p.host),
        h[0], h[1], h[2], h[3], h[4], h[5], h[6], h[7],
        h[8], h[9], h[10], h[11], h[12], h[13], h[14], h[15],
        ((p.port >> 8) & 0xff) as u8,
        (p.port & 0xff) as u8,
        side_tag(p.side),
        ((p.parallel >> 8) & 0xff) as u8,
        (p.parallel & 0xff) as u8,
        ((p.duration >> 8) & 0xff) as u8,
        (p.duration & 0xff) as u8,
    ]
}

/// A 16-bit value from its two big-endian bytes.
pub open spec fn u16_from_be(hi: u8, lo: u8) -> u16 {
    (hi as u16) << 8 | (lo as u16)
}

/// A 32-bit value from its four big-endian bytes.
pub open spec fn u32_from_be(b0: u8, b1: u8, b2: u8, b3: u8) -> u32 {
    (b0 as u32) << 24 | (b1 as u32) << 16 | (b2 as u32) << 8 | (b3 as u32)
}

/// A 128-bit value from its 16 big-endian bytes.
pub open spec fn u128_from_be(s: Seq<u8>) -> u128
    recommends
        s.len() == 16,
{
    (s[0] as u128) << 120 | (s[1] as u128) << 112 | (s[2] as u128) << 104 | (s[3] as u128) << 96
        | (s[4] as u128) << 88 | (s[5] as u128) << 80 | (s[6] as u128) << 72 | (s[7] as u128) << 64
        | (s[8] as u128) << 56 | (s[9] as u128) << 48 | (s[10] as u128) << 40 | (s[11] as u128)
        << 32 | (s[12] as u128) << 24 | (s[13] as u128) << 16 | (s[14] as u128) << 8 | (
    s[15] as u128)
}

/// Whether the buffer holds a decodable descriptor: at least 25 bytes, and
/// all three tag bytes in range. Bytes past the first 25 are never read.
pub open spec fn wire_ok(s: Seq<u8>) -> bool {
    &&& s.len() >= 25
    &&& (s[0] == 0 || s[0] == 1)
    &&& (s[1] == 0 || s[1] == 1)
    &&& (s[20] == 0 || s[20] == 1)
}

/// The descriptor held by a decodable buffer.
pub open spec fn spec_decoded(s: Seq<u8>) -> NetExp
    recommends
        wire_ok(s),
{
    let host = if s[1] == 0 {
        Host::V4(u32_from_be(s[14], s[15], s[16], s[17]))
    } else {
        Host::V6(u128_from_be(s.subrange(2, 18)))
    };
    let params = NetExpParams {
        host,
        port: u16_from_be(s[18], s[19]),
        side: if s[20] == 0 {
            Side::Rx
        } else {
            Side::Tx
        },
        parallel: u16_from_be(s[21], s[22]),
        duration: u16_from_be(s[23], s[24]),
    };
    if s[0] == 0 {
        NetExp::Tcp(params)
    } else {
        NetExp::Udp(params)
    }
}

/// What decoding a buffer yields. Validation order: buffer length first,
/// then the address-family tag, the side tag, and last the transport tag.
pub open spec fn spec_decode(s: Seq<u8>) -> Result<NetExp, DecodeError> {
    if s.len() < 25 {
        Err(DecodeError::TruncatedInput)
    } else if s[1] != 0 && s[1] != 1 {
        Err(DecodeError::InvalidAddressFamilyTag)
    } else if s[20] != 0 && s[20] != 1 {
        Err(DecodeError::InvalidSideTag)
    } else if s[0] != 0 && s[0] != 1 {
        Err(DecodeError::InvalidTransportTag)
    } else {
        Ok(spec_decoded(s))
    }
}

/// `bytes::Bytes`, the shared byte buffer the control channel carries
/// encoded descriptors in, held opaquely.
#[verifier::external_type_specification]
#[verifier::external_body]
pub struct ExBytes(bytes::Bytes);

/// The bytes that a `bytes::Bytes` buffer holds.
pub uninterp spec fn bytes_view(b: bytes::Bytes) -> Seq<u8>;

/// Relies on `bytes::Bytes::from(Vec<u8>)`: the buffer takes over exactly
/// the vector's bytes.
#[verifier::external_body]
fn bytes_from_vec(v: Vec<u8>) -> (b: bytes::Bytes)
    ensures
        bytes_view(b) == v@,
{
    bytes::Bytes::from(v)
}

proof fn lemma_mask_u16()
    by (bit_vector)
    ensures
        forall|x: u16| #[trigger] (x & 0xff) <= 0xff,
{
}

proof fn lemma_mask_u32()
    by (bit_vector)
    ensures
        forall|x: u32| #[trigger] (x & 0xff) <= 0xff,
{
}

proof fn lemma_mask_u128()
    by (bit_vector)
    ensures
        forall|x: u128| #[trigger] (x & 0xff) <= 0xff,
{
}

impl NetExp {
    /// Encodes this descriptor as its 25 wire bytes. Encoding is total:
    /// every representable descriptor has an encoding.
    pub fn encode(&self) -> (r: Vec<u8>)
        ensures
            r@ == spec_encode(*self),
    {
        proof {
            lemma_mask_u16();
            lemma_mask_u32();
            lemma_mask_u128();
        }
        let p = *self.params();
        let mut out: Vec<u8> = Vec::with_capacity(WIRE_LEN);
        out.push(match self {
            NetExp::Tcp(_) => 0,
            NetExp::Udp(_) => 1,
        });
        match p.host {
            Host::V4(a) => {
                // family tag, then 12 bytes of padding
                out.push(0);
                out.push(0);
                out.push(0);
                out.push(0);
                out.push(0);
                out.push(0);
                out.push(0);
                out.push(0);
                out.push(0);
                out.push(0);
                out.push(0);
                out.push(0);
                out.push(0);
                out.push(((a >> 24) & 0xff) as u8);
                out.push(((a >> 16) & 0xff) as u8);
                out.push(((a >> 8) & 0xff) as u8);
                out.push((a & 0xff) as u8);
            },
            Host::V6(a) => {
                // family tag, then all 16 address octets
                out.push(1);
                out.push(((a >> 120) & 0xff) as u8);
                out.push(((a >> 112) & 0xff) as u8);
                out.push(((a >> 104) & 0xff) as u8);
                out.push(((a >> 96) & 0xff) as u8);
                out.push(((a >> 88) & 0xff) as u8);
                out.push(((a >> 80) & 0xff) as u8);
                out.push(((a >> 72) & 0xff) as u8);
                out.push(((a >> 64) & 0xff) as u8);
                out.push(((a >> 56) & 0xff) as u8);
                out.push(((a >> 48) & 0xff) as u8);
                out.push(((a >> 40) & 0xff) as u8);
                out.push(((a >> 32) & 0xff) as u8);
                out.push(((a >> 24) & 0xff) as u8);
                out.push(((a >> 16) & 0xff) as u8);
                out.push(((a >> 8) & 0xff) as u8);
                out.push((a & 0xff) as u8);
            },
        }
        out.push(((p.port >> 8) & 0xff) as u8);
        out.push((p.port & 0xff) as u8);
        out.push(match p.side {
            Side::Rx => 0,
            Side::Tx => 1,
        });
        out.push(((p.parallel >> 8) & 0xff) as u8);
        out.push((p.parallel & 0xff) as u8);
        out.push(((p.duration >> 8) & 0xff) as u8);
        out.push((p.duration & 0xff) as u8);
        proof {
            assert(out@ =~= spec_encode(*self));
        }
        out
    }

    /// Encodes this descriptor into a freshly allocated shared byte
    /// buffer holding exactly its 25 wire bytes.
    pub fn serialize(&self) -> (r: bytes::Bytes)
        ensures
            bytes_view(r) == spec_encode(*self),
    {
        bytes_from_vec(self.encode())
    }

    /// Decodes a descriptor from the first 25 bytes of the buffer.
    ///
    /// Fails with `TruncatedInput` on a buffer shorter than 25 bytes, and
    /// with the tag error named by `spec_decode` on an out-of-range tag
    /// byte; nothing past byte 24 is read.
    pub fn deserialize(bytes: &[u8]) -> (r: Result<NetExp, DecodeError>)
        ensures
            r == spec_decode(bytes@),
    {
        if bytes.len() < WIRE_LEN {
            return Err(DecodeError::TruncatedInput);
        }
        let family = bytes[1];
        if family != 0 && family != 1 {
            return Err(DecodeError::InvalidAddressFamilyTag);
        }
        let side_byte = bytes[20];
        if side_byte != 0 && side_byte != 1 {
            return Err(DecodeError::InvalidSideTag);
        }
        let transport = bytes[0];
        if transport != 0 && transport != 1 {
            return Err(DecodeError::InvalidTransportTag);
        }
        let host = if family == 0 {
            Host::V4(
                (bytes[14] as u32) << 24 | (bytes[15] as u32) << 16 | (bytes[16] as u32) << 8 | (
                bytes[17] as u32),
            )
        } else {
            Host::V6(
                (bytes[2] as u128) << 120 | (bytes[3] as u128) << 112 | (bytes[4] as u128) << 104
                    | (bytes[5] as u128) << 96 | (bytes[6] as u128) << 88 | (bytes[7] as u128) << 80
                    | (bytes[8] as u128) << 72 | (bytes[9] as u128) << 64 | (bytes[10] as u128)
                    << 56 | (bytes[11] as u128) << 48 | (bytes[12] as u128) << 40 | (
                bytes[13] as u128) << 32 | (bytes[14] as u128) << 24 | (bytes[15] as u128) << 16 | (
                bytes[16] as u128) << 8 | (bytes[17] as u128),
            )
        };
        let params = NetExpParams {
            host,
            port: (bytes[18] as u16) << 8 | (bytes[19] as u16),
            side: if side_byte == 0 {
                Side::Rx
            } else {
                Side::Tx
            },
            parallel: (bytes[21] as u16) << 8 | (bytes[22] as u16),
            duration: (bytes[23] as u16) << 8 | (bytes[24] as u16),
        };
        let r = if transport == 0 {
            Ok(NetExp::Tcp(params))
        } else {
            Ok(NetExp::Udp(params))
        };
        proof {
            if wire_ok(bytes@) {
                assert(bytes@.subrange(2, 18)[0] == bytes@[2]);
                assert(r == Ok::<NetExp, DecodeError>(spec_decoded(bytes@)));
            }
        }
        r
    }
}

proof fn lemma_u16_be_roundtrip(x: u16)
    by (bit_vector)
    ensures
        ((((x >> 8) & 0xff) as u8) as u16) << 8 | (((x & 0xff) as u8) as u16) == x,
{
}

proof fn lemma_u32_be_roundtrip(a: u32)
    by (bit_vector)
    ensures
        ((((a >> 24) & 0xff) as u8) as u32) << 24 | ((((a >> 16) & 0xff) as u8) as u32) << 16 | ((((
        a >> 8) & 0xff) as u8) as u32) << 8 | (((a & 0xff) as u8) as u32) == a,
{
}

proof fn lemma_u128_be_roundtrip(a: u128)
    by (bit_vector)
    ensures
        ((((a >> 120) & 0xff) as u8) as u128) << 120 | ((((a >> 112) & 0xff) as u8) as u128) << 112
            | ((((a >> 104) & 0xff) as u8) as u128) << 104 | ((((a >> 96) & 0xff) as u8) as u128)
            << 96 | ((((a >> 88) & 0xff) as u8) as u128) << 88 | ((((a >> 80) & 0xff) as u8)
            as u128) << 80 | ((((a >> 72) & 0xff) as u8) as u128) << 72 | ((((a >> 64) & 0xff)
            as u8) as u128) << 64 | ((((a >> 56) & 0xff) as u8) as u128) << 56 | ((((a >> 48)
            & 0xff) as u8) as u128) << 48 | ((((a >> 40) & 0xff) as u8) as u128) << 40 | ((((a
            >> 32) & 0xff) as u8) as u128) << 32 | ((((a >> 24) & 0xff) as u8) as u128) << 24 | ((((
        a >> 16) & 0xff) as u8) as u128) << 16 | ((((a >> 8) & 0xff) as u8) as u128) << 8 | (((a
            & 0xff) as u8) as u128) == a,
{
}

/// Round-trip: decoding the encoding of any representable descriptor gives
/// that descriptor back, whatever its transport, address family, side,
/// port, parallelism and duration.
pub proof fn lemma_decode_encode_roundtrip(e: NetExp)
    ensures
        spec_decode(spec_encode(e)) == Ok::<NetExp, DecodeError>(e),
{
    let p = e.spec_params();
    let s = spec_encode(e);
    assert(s.len() == 25);
    lemma_u16_be_roundtrip(p.port);
    lemma_u16_be_roundtrip(p.parallel);
    lemma_u16_be_roundtrip(p.duration);
    match p.host {
        Host::V4(a) => {
            lemma_u32_be_roundtrip(a);
            assert(spec_decoded(s).spec_params().host == p.host);
        },
        Host::V6(a) => {
            let t = s.subrange(2, 18);
            assert(t.len() == 16);
            assert(t[0] == ((a >> 120) & 0xff) as u8);
            assert(t[1] == ((a >> 112) & 0xff) as u8);
            assert(t[2] == ((a >> 104) & 0xff) as u8);
            assert(t[3] == ((a >> 96) & 0xff) as u8);
            assert(t[4] == ((a >> 88) & 0xff) as u8);
            assert(t[5] == ((a >> 80) & 0xff) as u8);
            assert(t[6] == ((a >> 72) & 0xff) as u8);
            assert(t[7] == ((a >> 64) & 0xff) as u8);
            assert(t[8] == ((a >> 56) & 0xff) as u8);
            assert(t[9] == ((a >> 48) & 0xff) as u8);
            assert(t[10] == ((a >> 40) & 0xff) as u8);
            assert(t[11] == ((a >> 32) & 0xff) as u8);
            assert(t[12] == ((a >> 24) & 0xff) as u8);
            assert(t[13] == ((a >> 16) & 0xff) as u8);
            assert(t[14] == ((a >> 8) & 0xff) as u8);
            assert(t[15] == (a & 0xff) as u8);
            lemma_u128_be_roundtrip(a);
            assert(spec_decoded(s).spec_params().host == p.host);
        },
    }
    assert(spec_decoded(s) == e);
}

proof fn lemma_u16_bytes_roundtrip(hi: u8, lo: u8)
    by (bit_vector)
    ensures
        (((((hi as u16) << 8) | (lo as u16)) >> 8) & 0xff) as u8 == hi,
        ((((hi as u16) << 8) | (lo as u16)) & 0xff) as u8 == lo,
{
}

proof fn lemma_u32_bytes_roundtrip(b0: u8, b1: u8, b2: u8, b3: u8)
    by (bit_vector)
    ensures
        ((((b0 as u32) << 24 | (b1 as u32) << 16 | (b2 as u32) << 8 | (b3 as u32)) >> 24) & 0xff)
            as u8 == b0,
        ((((b0 as u32) << 24 | (b1 as u32) << 16 | (b2 as u32) << 8 | (b3 as u32)) >> 16) & 0xff)
            as u8 == b1,
        ((((b0 as u32) << 24 | (b1 as u32) << 16 | (b2 as u32) << 8 | (b3 as u32)) >> 8) & 0xff)
            as u8 == b2,
        (((b0 as u32) << 24 | (b1 as u32) << 16 | (b2 as u32) << 8 | (b3 as u32)) & 0xff) as u8
            == b3,
{
}

proof fn lemma_u128_bytes_roundtrip(c: Seq<u8>)
    requires
        c.len() == 16,
    ensures
        (((u128_from_be(c) >> 120) & 0xff) as u8) == c[0],
        (((u128_from_be(c) >> 112) & 0xff) as u8) == c[1],
        (((u128_from_be(c) >> 104) & 0xff) as u8) == c[2],
        (((u128_from_be(c) >> 96) & 0xff) as u8) == c[3],
        (((u128_from_be(c) >> 88) & 0xff) as u8) == c[4],
        (((u128_from_be(c) >> 80) & 0xff) as u8) == c[5],
        (((u128_from_be(c) >> 72) & 0xff) as u8) == c[6],
        (((u128_from_be(c) >> 64) & 0xff) as u8) == c[7],
        (((u128_from_be(c) >> 56) & 0xff) as u8) == c[8],
        (((u128_from_be(c) >> 48) & 0xff) as u8) == c[9],
        (((u128_from_be(c) >> 40) & 0xff) as u8) == c[10],
        (((u128_from_be(c) >> 32) & 0xff) as u8) == c[11],
        (((u128_from_be(c) >> 24) & 0xff) as u8) == c[12],
        (((u128_from_be(c) >> 16) & 0xff) as u8) == c[13],
        (((u128_from_be(c) >> 8) & 0xff) as u8) == c[14],
        ((u128_from_be(c) & 0xff) as u8) == c[15],
{
    let c0 = c[0];
    let c1 = c[1];
    let c2 = c[2];
    let c3 = c[3];
    let c4 = c[4];
    let c5 = c[5];
    let c6 = c[6];
    let c7 = c[7];
    let c8 = c[8];
    let c9 = c[9];
    let c10 = c[10];
    let c11 = c[11];
    let c12 = c[12];
    let c13 = c[13];
    let c14 = c[14];
    let c15 = c[15];
    let x = u128_from_be(c);
    assert((((x >> 120) & 0xff) as u8) == c0 && (((x >> 112) & 0xff) as u8) == c1 && (((x >> 104)
        & 0xff) as u8) == c2 && (((x >> 96) & 0xff) as u8) == c3 && (((x >> 88) & 0xff) as u8) == c4
        && (((x >> 80) & 0xff) as u8) == c5 && (((x >> 72) & 0xff) as u8) == c6 && (((x >> 64)
        & 0xff) as u8) == c7 && (((x >> 56) & 0xff) as u8) == c8 && (((x >> 48) & 0xff) as u8) == c9
        && (((x >> 40) & 0xff) as u8) == c10 && (((x >> 32) & 0xff) as u8) == c11 && (((x >> 24)
        & 0xff) as u8) == c12 && (((x >> 16) & 0xff) as u8) == c13 && (((x >> 8) & 0xff) as u8)
        == c14 && ((x & 0xff) as u8) == c15) by (bit_vector)
        requires
            x == (c0 as u128) << 120 | (c1 as u128) << 112 | (c2 as u128) << 104 | (c3 as u128)
                << 96 | (c4 as u128) << 88 | (c5 as u128) << 80 | (c6 as u128) << 72 | (c7 as u128)
                << 64 | (c8 as u128) << 56 | (c9 as u128) << 48 | (c10 as u128) << 40 | (
            c11 as u128) << 32 | (c12 as u128) << 24 | (c13 as u128) << 16 | (c14 as u128) << 8 | (
            c15 as u128),
    ;
}

/// The inverse round-trip: a canonical wire buffer — exactly 25 bytes,
/// valid tags, and zero IPv4 padding — is reproduced byte for byte by
/// re-encoding the descriptor it decodes to.
pub proof fn lemma_encode_decode_roundtrip(s: Seq<u8>)
    requires
        s.len() == 25,
        wire_ok(s),
        s[1] == 0 ==> (forall|i: int| 2 <= i < 14 ==> s[i] == 0),
    ensures
        spec_encode(spec_decoded(s)) == s,
{
    let d = spec_decoded(s);
    let p = d.spec_params();
    lemma_u16_bytes_roundtrip(s[18], s[19]);
    lemma_u16_bytes_roundtrip(s[21], s[22]);
    lemma_u16_bytes_roundtrip(s[23], s[24]);
    if s[1] == 0 {
        lemma_u32_bytes_roundtrip(s[14], s[15], s[16], s[17]);
        assert(host_octets(p.host) =~= s.subrange(2, 18));
    } else {
        let t = s.subrange(2, 18);
        lemma_u128_bytes_roundtrip(t);
        assert(host_octets(p.host) =~= t);
    }
    assert(spec_encode(d) =~= s);
}

} // verus!
