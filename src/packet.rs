use vstd::prelude::*;

use crate::error::{LostLoveError, Result};

verus! {

/// Protocol identifier carried in the first two bytes of every header ("LL").
pub const PROTOCOL_ID: u16 = 0x4C4C;

/// Size of the fixed header in bytes.
pub const HEADER_SIZE: usize = 24;

/// Packet types and their wire codes.
#[derive(Debug, Clone, Copy, PartialEq, Eq, Structural)]
pub enum PacketType {
    Data,
    Ack,
    HandshakeInit,
    HandshakeResponse,
    KeepAlive,
    Disconnect,
}

/// Wire code of a packet type.
pub open spec fn type_code(t: PacketType) -> u8 {
    match t {
        PacketType::Data => 0x01,
        PacketType::Ack => 0x02,
        PacketType::HandshakeInit => 0x03,
        PacketType::HandshakeResponse => 0x04,
        PacketType::KeepAlive => 0x05,
        PacketType::Disconnect => 0x06,
    }
}

/// The packet type that a wire code stands for, if any.
pub open spec fn type_of_code(b: u8) -> Option<PacketType> {
    if b == 0x01 {
        Some(PacketType::Data)
    } else if b == 0x02 {
        Some(PacketType::Ack)
    } else if b == 0x03 {
        Some(PacketType::HandshakeInit)
    } else if b == 0x04 {
        Some(PacketType::HandshakeResponse)
    } else if b == 0x05 {
        Some(PacketType::KeepAlive)
    } else if b == 0x06 {
        Some(PacketType::Disconnect)
    } else {
        None
    }
}

/// Control packets are the handshake, keep-alive and disconnect packets.
pub open spec fn is_control_type(t: PacketType) -> bool {
    t != PacketType::Data && t != PacketType::Ack
}

impl PacketType {
    pub fn from_u8(value: u8) -> (r: Result<PacketType>)
        ensures
            match type_of_code(value) {
                Some(t) => r == Ok::<PacketType, LostLoveError>(t),
                None => r == Err::<PacketType, LostLoveError>(LostLoveError::InvalidPacketType(value)),
            },
    {
        match value {
            0x01 => Ok(PacketType::Data),
            0x02 => Ok(PacketType::Ack),
            0x03 => Ok(PacketType::HandshakeInit),
            0x04 => Ok(PacketType::HandshakeResponse),
            0x05 => Ok(PacketType::KeepAlive),
            0x06 => Ok(PacketType::Disconnect),
            _ => Err(LostLoveError::InvalidPacketType(value)),
        }
    }

    pub fn to_u8(&self) -> (r: u8)
        ensures
            r == type_code(*self),
    {
        match self {
            PacketType::Data => 0x01,
            PacketType::Ack => 0x02,
            PacketType::HandshakeInit => 0x03,
            PacketType::HandshakeResponse => 0x04,
            PacketType::KeepAlive => 0x05,
            PacketType::Disconnect => 0x06,
        }
    }
}

/// The fixed 24-byte packet header.
#[derive(Debug, Clone, Copy, PartialEq, Eq, Structural)]
pub struct PacketHeader {
    pub protocol_id: u16,
    pub packet_type: PacketType,
    pub stream_id: u16,
    pub sequence_number: u64,
    pub timestamp: u64,
    pub flags: u8,
    pub checksum: u16,
}

// ---------------------------------------------------------------------------
// Byte-level model of the wire format.

/// Big-endian bytes of a 16-bit value.
pub open spec fn be16(v: u16) -> Seq<u8> {
    seq![(v >> 8u16) as u8, v as u8]
}

/// Big-endian bytes of a 64-bit value.
pub open spec fn be64(v: u64) -> Seq<u8> {
    seq![
        (v >> 56u64) as u8,
        (v >> 48u64) as u8,
        (v >> 40u64) as u8,
        (v >> 32u64) as u8,
        (v >> 24u64) as u8,
        (v >> 16u64) as u8,
        (v >> 8u64) as u8,
        v as u8,
    ]
}

/// The 16-bit big-endian value stored at `b[i..i + 2]`.
pub open spec fn u16_at(b: Seq<u8>, i: int) -> u16 {
    ((b[i] as u16) << 8u16) | (b[i + 1] as u16)
}

/// The 64-bit big-endian value stored at `b[i..i + 8]`.
pub open spec fn u64_at(b: Seq<u8>, i: int) -> u64 {
    ((b[i] as u64) << 56u64) | ((b[i + 1] as u64) << 48u64) | ((b[i + 2] as u64) << 40u64) | ((
    b[i + 3] as u64) << 32u64) | ((b[i + 4] as u64) << 24u64) | ((b[i + 5] as u64) << 16u64) | ((
    b[i + 6] as u64) << 8u64) | (b[i + 7] as u64)
}

/// Header fields in wire order, without the checksum: what the checksum covers.
pub open spec fn checksummed_fields(h: PacketHeader) -> Seq<u8> {
    be16(h.protocol_id) + seq![type_code(h.packet_type)] + be16(h.stream_id) + be64(
        h.sequence_number,
    ) + be64(h.timestamp) + seq![h.flags]
}

/// The 24 header bytes as sent.
pub open spec fn header_bytes(h: PacketHeader) -> Seq<u8> {
    checksummed_fields(h) + be16(h.checksum)
}

/// A whole packet as sent: header followed by payload.
pub open spec fn encode(h: PacketHeader, payload: Seq<u8>) -> Seq<u8> {
    header_bytes(h) + payload
}

/// One bit step of CRC-16/CCITT (polynomial 0x1021, no reflection).
pub open spec fn crc_bit(c: u16) -> u16 {
    if c & 0x8000u16 != 0 {
        (c << 1u16) ^ 0x1021u16
    } else {
        c << 1u16
    }
}

/// `n` bit steps.
pub open spec fn crc_bits(c: u16, n: nat) -> u16
    decreases n,
{
    if n == 0 {
        c
    } else {
        crc_bits(crc_bit(c), (n - 1) as nat)
    }
}

/// The register after absorbing one byte.
pub open spec fn crc_byte(c: u16, b: u8) -> u16 {
    crc_bits(c ^ ((b as u16) << 8u16), 8)
}

/// The register after absorbing `s`, starting from `c`.
pub open spec fn crc_from(c: u16, s: Seq<u8>) -> u16
    decreases s.len(),
{
    if s.len() == 0 {
        c
    } else {
        crc_byte(crc_from(c, s.drop_last()), s.last())
    }
}

/// CRC-16/CCITT of `s`: initial value 0xFFFF, no final xor.
pub open spec fn crc16(s: Seq<u8>) -> u16 {
    crc_from(0xFFFFu16, s)
}

/// The checksum that a header with these fields and this payload must carry.
pub open spec fn checksum_of(h: PacketHeader, payload: Seq<u8>) -> u16 {
    crc16(checksummed_fields(h) + payload)
}

/// A packet that decodes to itself: right protocol id and a matching checksum.
pub open spec fn well_formed(h: PacketHeader, payload: Seq<u8>) -> bool {
    h.protocol_id == PROTOCOL_ID && h.checksum == checksum_of(h, payload)
}

/// The header read from the first 24 bytes of `b`, whose type byte is valid.
pub open spec fn header_at(b: Seq<u8>) -> PacketHeader {
    PacketHeader {
        protocol_id: u16_at(b, 0),
        packet_type: type_of_code(b[2]).unwrap(),
        stream_id: u16_at(b, 3),
        sequence_number: u64_at(b, 5),
        timestamp: u64_at(b, 13),
        flags: b[21],
        checksum: u16_at(b, 22),
    }
}

/// The checksum recomputed from received bytes: header bytes except the
/// checksum field, then the payload.
pub open spec fn wire_crc(b: Seq<u8>) -> u16 {
    crc16(b.subrange(0, 22) + b.subrange(24, b.len() as int))
}

/// The header part of decoding: length, protocol id and type checks.
pub open spec fn decode_header(b: Seq<u8>) -> Result<PacketHeader> {
    if b.len() < 24 {
        Err(LostLoveError::InsufficientData { expected: 24, actual: b.len() as usize })
    } else if u16_at(b, 0) != PROTOCOL_ID {
        Err(LostLoveError::InvalidProtocolId(u16_at(b, 0)))
    } else if type_of_code(b[2]) is None {
        Err(LostLoveError::InvalidPacketType(b[2]))
    } else {
        Ok(header_at(b))
    }
}

/// What decoding a received byte sequence yields.
pub open spec fn decode(b: Seq<u8>) -> Result<(PacketHeader, Seq<u8>)> {
    match decode_header(b) {
        Err(e) => Err(e),
        Ok(h) => if wire_crc(b) != h.checksum {
            Err(LostLoveError::ChecksumMismatch { expected: h.checksum, actual: wire_crc(b) })
        } else {
            Ok((h, b.subrange(24, b.len() as int)))
        },
    }
}

// ---------------------------------------------------------------------------
// Lemmas on the byte model.

proof fn lemma_u16_round_trip(v: u16)
    ensures
        u16_at(be16(v), 0) == v,
{
    assert(((((v >> 8u16) as u8) as u16) << 8u16) | ((v as u8) as u16) == v) by (bit_vector);
}

proof fn lemma_u16_parts(b0: u8, b1: u8)
    ensures
        ((((b0 as u16) << 8u16) | (b1 as u16)) >> 8u16) as u8 == b0,
        (((b0 as u16) << 8u16) | (b1 as u16)) as u8 == b1,
{
    assert(((((b0 as u16) << 8u16) | (b1 as u16)) >> 8u16) as u8 == b0) by (bit_vector);
    assert((((b0 as u16) << 8u16) | (b1 as u16)) as u8 == b1) by (bit_vector);
}

proof fn lemma_u64_round_trip(v: u64)
    ensures
        u64_at(be64(v), 0) == v,
{
    assert(((((v >> 56u64) as u8) as u64) << 56u64) | ((((v >> 48u64) as u8) as u64) << 48u64) | ((
    ((v >> 40u64) as u8) as u64) << 40u64) | ((((v >> 32u64) as u8) as u64) << 32u64) | ((((v
        >> 24u64) as u8) as u64) << 24u64) | ((((v >> 16u64) as u8) as u64) << 16u64) | ((((v
        >> 8u64) as u8) as u64) << 8u64) | ((v as u8) as u64) == v) by (bit_vector);
}

proof fn lemma_u64_parts(b0: u8, b1: u8, b2: u8, b3: u8, b4: u8, b5: u8, b6: u8, b7: u8)
    ensures
        ({
            let v = ((b0 as u64) << 56u64) | ((b1 as u64) << 48u64) | ((b2 as u64) << 40u64) | ((
            b3 as u64) << 32u64) | ((b4 as u64) << 24u64) | ((b5 as u64) << 16u64) | ((b6 as u64)
                << 8u64) | (b7 as u64);
            &&& (v >> 56u64) as u8 == b0
            &&& (v >> 48u64) as u8 == b1
            &&& (v >> 40u64) as u8 == b2
            &&& (v >> 32u64) as u8 == b3
            &&& (v >> 24u64) as u8 == b4
            &&& (v >> 16u64) as u8 == b5
            &&& (v >> 8u64) as u8 == b6
            &&& v as u8 == b7
        }),
{
    let v = ((b0 as u64) << 56u64) | ((b1 as u64) << 48u64) | ((b2 as u64) << 40u64) | ((b3 as u64)
        << 32u64) | ((b4 as u64) << 24u64) | ((b5 as u64) << 16u64) | ((b6 as u64) << 8u64) | (
    b7 as u64);
    assert((v >> 56u64) as u8 == b0 && (v >> 48u64) as u8 == b1 && (v >> 40u64) as u8 == b2 && (v
        >> 32u64) as u8 == b3 && (v >> 24u64) as u8 == b4 && (v >> 16u64) as u8 == b5 && (v
        >> 8u64) as u8 == b6 && v as u8 == b7) by (bit_vector)
        requires
            v == ((b0 as u64) << 56u64) | ((b1 as u64) << 48u64) | ((b2 as u64) << 40u64) | ((
            b3 as u64) << 32u64) | ((b4 as u64) << 24u64) | ((b5 as u64) << 16u64) | ((b6 as u64)
                << 8u64) | (b7 as u64),
    ;
}

proof fn lemma_type_code_round_trip(t: PacketType)
    ensures
        type_of_code(type_code(t)) == Some(t),
{
}

proof fn lemma_code_type_round_trip(b: u8)
    requires
        type_of_code(b) is Some,
    ensures
        type_code(type_of_code(b).unwrap()) == b,
{
}

/// Reading a header back from its own bytes gives the header.
proof fn lemma_header_round_trip(h: PacketHeader, payload: Seq<u8>)
    ensures
        encode(h, payload).len() == 24 + payload.len(),
        encode(h, payload).subrange(0, 22) == checksummed_fields(h),
        encode(h, payload).subrange(24, 24 + payload.len() as int) == payload,
        type_of_code(encode(h, payload)[2]) == Some(h.packet_type),
        header_at(encode(h, payload)) == h,
{
    let e = encode(h, payload);
    assert(e.subrange(0, 22) =~= checksummed_fields(h));
    assert(e.subrange(24, 24 + payload.len() as int) =~= payload);
    lemma_type_code_round_trip(h.packet_type);
    lemma_u16_round_trip(h.protocol_id);
    lemma_u16_round_trip(h.stream_id);
    lemma_u16_round_trip(h.checksum);
    lemma_u64_round_trip(h.sequence_number);
    lemma_u64_round_trip(h.timestamp);
    assert(u16_at(e, 0) == u16_at(be16(h.protocol_id), 0));
    assert(u16_at(e, 3) == u16_at(be16(h.stream_id), 0));
    assert(u16_at(e, 22) == u16_at(be16(h.checksum), 0));
    assert(u64_at(e, 5) == u64_at(be64(h.sequence_number), 0));
    assert(u64_at(e, 13) == u64_at(be64(h.timestamp), 0));
}

/// The checksummed fields of a decoded header are the received bytes themselves.
proof fn lemma_fields_of_received(b: Seq<u8>)
    requires
        b.len() >= 24,
        type_of_code(b[2]) is Some,
    ensures
        checksummed_fields(header_at(b)) == b.subrange(0, 22),
{
    let h = header_at(b);
    lemma_code_type_round_trip(b[2]);
    lemma_u16_parts(b[0], b[1]);
    lemma_u16_parts(b[3], b[4]);
    lemma_u64_parts(b[5], b[6], b[7], b[8], b[9], b[10], b[11], b[12]);
    lemma_u64_parts(b[13], b[14], b[15], b[16], b[17], b[18], b[19], b[20]);
    assert(checksummed_fields(h) =~= b.subrange(0, 22));
}

proof fn lemma_crc_bit_injective(a: u16, b: u16)
    requires
        crc_bit(a) == crc_bit(b),
    ensures
        a == b,
{
    assert(((if a & 0x8000u16 != 0 {
        (a << 1u16) ^ 0x1021u16
    } else {
        a << 1u16
    }) == (if b & 0x8000u16 != 0 {
        (b << 1u16) ^ 0x1021u16
    } else {
        b << 1u16
    })) ==> a == b) by (bit_vector);
}

proof fn lemma_crc_bits_injective(a: u16, b: u16, n: nat)
    requires
        crc_bits(a, n) == crc_bits(b, n),
    ensures
        a == b,
    decreases n,
{
    if n > 0 {
        lemma_crc_bits_injective(crc_bit(a), crc_bit(b), (n - 1) as nat);
        lemma_crc_bit_injective(a, b);
    }
}

/// Absorbing two different bytes into the same register gives different registers.
proof fn lemma_crc_byte_separates_bytes(c: u16, x: u8, y: u8)
    requires
        x != y,
    ensures
        crc_byte(c, x) != crc_byte(c, y),
{
    if crc_byte(c, x) == crc_byte(c, y) {
        lemma_crc_bits_injective(c ^ ((x as u16) << 8u16), c ^ ((y as u16) << 8u16), 8);
        assert((c ^ ((x as u16) << 8u16)) == (c ^ ((y as u16) << 8u16)) ==> x == y) by (bit_vector);
    }
}

/// Absorbing the same byte into different registers keeps them different.
proof fn lemma_crc_byte_separates_registers(c: u16, d: u16, x: u8)
    requires
        c != d,
    ensures
        crc_byte(c, x) != crc_byte(d, x),
{
    if crc_byte(c, x) == crc_byte(d, x) {
        lemma_crc_bits_injective(c ^ ((x as u16) << 8u16), d ^ ((x as u16) << 8u16), 8);
        assert((c ^ ((x as u16) << 8u16)) == (d ^ ((x as u16) << 8u16)) ==> c == d) by (bit_vector);
    }
}

/// Sequences that differ in exactly one position have different CRCs.
pub proof fn lemma_crc_detects_single_change(c: u16, s: Seq<u8>, t: Seq<u8>, k: int)
    requires
        s.len() == t.len(),
        0 <= k < s.len(),
        s[k] != t[k],
        forall|j: int| 0 <= j < s.len() && j != k ==> s[j] == t[j],
    ensures
        crc_from(c, s) != crc_from(c, t),
    decreases s.len(),
{
    if k == s.len() - 1 {
        assert(s.drop_last() =~= t.drop_last());
        lemma_crc_byte_separates_bytes(crc_from(c, s.drop_last()), s.last(), t.last());
    } else {
        lemma_crc_detects_single_change(c, s.drop_last(), t.drop_last(), k);
        lemma_crc_byte_separates_registers(
            crc_from(c, s.drop_last()),
            crc_from(c, t.drop_last()),
            s.last(),
        );
    }
}

/// Decoding an encoded well-formed packet gives back its header and payload.
pub proof fn lemma_decode_encode(h: PacketHeader, payload: Seq<u8>)
    requires
        well_formed(h, payload),
    ensures
        decode(encode(h, payload)) == Ok::<(PacketHeader, Seq<u8>), LostLoveError>((h, payload)),
{
    let e = encode(h, payload);
    lemma_header_round_trip(h, payload);
    assert(e.subrange(0, 22) + e.subrange(24, e.len() as int) =~= checksummed_fields(h) + payload);
}

/// Changing any single byte of an encoded well-formed packet (in particular,
/// flipping any one bit) makes decoding fail: the protocol id, the type byte
/// or the checksum no longer matches.
pub proof fn lemma_single_byte_change_detected(h: PacketHeader, payload: Seq<u8>, i: int, x: u8)
    requires
        well_formed(h, payload),
        0 <= i < encode(h, payload).len(),
        encode(h, payload)[i] != x,
    ensures
        decode(encode(h, payload).update(i, x)) is Err,
{
    let e = encode(h, payload);
    let f = e.update(i, x);
    let n = e.len() as int;
    lemma_header_round_trip(h, payload);
    lemma_decode_encode(h, payload);
    assert(decode(e) == Ok::<(PacketHeader, Seq<u8>), LostLoveError>((h, payload)));
    if decode(f) is Ok {
        if i < 2 {
            lemma_u16_parts(f[0], f[1]);
            lemma_u16_parts(e[0], e[1]);
            assert(false);
        } else if i == 22 || i == 23 {
            assert(f.subrange(0, 22) =~= e.subrange(0, 22));
            assert(f.subrange(24, n) =~= e.subrange(24, n));
            lemma_u16_parts(f[22], f[23]);
            lemma_u16_parts(e[22], e[23]);
            assert(false);
        } else {
            let s = e.subrange(0, 22) + e.subrange(24, n);
            let t = f.subrange(0, 22) + f.subrange(24, n);
            let k = if i < 22 {
                i
            } else {
                i - 2
            };
            assert(s[k] != t[k]);
            assert forall|j: int| 0 <= j < s.len() && j != k implies s[j] == t[j] by {
                if j < 22 {
                } else {
                }
            }
            lemma_crc_detects_single_change(0xFFFFu16, s, t, k);
            assert(u16_at(f, 22) == u16_at(e, 22));
            assert(false);
        }
    }
}

// ---------------------------------------------------------------------------
// Executable codec.

fn push_u16(buf: &mut Vec<u8>, v: u16)
    ensures
        final(buf)@ == old(buf)@ + be16(v),
{
    buf.push((v >> 8u16) as u8);
    buf.push(v as u8);
    assert(final(buf)@ =~= old(buf)@ + be16(v));
}

fn push_u64(buf: &mut Vec<u8>, v: u64)
    ensures
        final(buf)@ == old(buf)@ + be64(v),
{
    buf.push((v >> 56u64) as u8);
    buf.push((v >> 48u64) as u8);
    buf.push((v >> 40u64) as u8);
    buf.push((v >> 32u64) as u8);
    buf.push((v >> 24u64) as u8);
    buf.push((v >> 16u64) as u8);
    buf.push((v >> 8u64) as u8);
    buf.push(v as u8);
    assert(final(buf)@ =~= old(buf)@ + be64(v));
}

fn read_u16(buf: &[u8], i: usize) -> (r: u16)
    requires
        i + 2 <= buf@.len(),
    ensures
        r == u16_at(buf@, i as int),
{
    ((buf[i] as u16) << 8u16) | (buf[i + 1] as u16)
}

fn read_u64(buf: &[u8], i: usize) -> (r: u64)
    requires
        i + 8 <= buf@.len(),
    ensures
        r == u64_at(buf@, i as int),
{
    ((buf[i] as u64) << 56u64) | ((buf[i + 1] as u64) << 48u64) | ((buf[i + 2] as u64) << 40u64) | ((
    buf[i + 3] as u64) << 32u64) | ((buf[i + 4] as u64) << 24u64) | ((buf[i + 5] as u64)
        << 16u64) | ((buf[i + 6] as u64) << 8u64) | (buf[i + 7] as u64)
}

/// One byte of CRC-16/CCITT.
fn crc_update(crc: u16, byte: u8) -> (r: u16)
    ensures
        r == crc_byte(crc, byte),
{
    let mut c: u16 = crc ^ ((byte as u16) << 8u16);
    let mut k: u32 = 0;
    while k < 8
        invariant
            k <= 8,
            crc_bits(c, (8 - k) as nat) == crc_byte(crc, byte),
        decreases 8 - k,
    {
        if c & 0x8000u16 != 0 {
            c = (c << 1u16) ^ 0x1021u16;
        } else {
            c = c << 1u16;
        }
        k = k + 1;
    }
    c
}

/// Returns the current wall-clock time in milliseconds since the Unix epoch.
///
/// Relies on `std::time::SystemTime::now`; a clock set before the epoch reads as zero.
#[verifier::external_body]
pub fn current_timestamp() -> u64 {
    std::time::SystemTime::now().duration_since(std::time::UNIX_EPOCH).map(
        |d| d.as_millis() as u64,
    ).unwrap_or(0)
}

impl PacketHeader {
    /// A header of the given type on the control stream, stamped with the
    /// current time; sequence number, flags and checksum are zero.
    pub fn new(packet_type: PacketType) -> (r: PacketHeader)
        ensures
            r.protocol_id == PROTOCOL_ID,
            r.packet_type == packet_type,
            r.stream_id == 0,
            r.sequence_number == 0,
            r.flags == 0,
            r.checksum == 0,
    {
        PacketHeader::new_at(packet_type, current_timestamp())
    }

    /// As `new`, with the timestamp given.
    pub fn new_at(packet_type: PacketType, timestamp: u64) -> (r: PacketHeader)
        ensures
            r == (PacketHeader {
                protocol_id: PROTOCOL_ID,
                packet_type,
                stream_id: 0,
                sequence_number: 0,
                timestamp,
                flags: 0,
                checksum: 0,
            }),
    {
        PacketHeader {
            protocol_id: PROTOCOL_ID,
            packet_type,
            stream_id: 0,
            sequence_number: 0,
            timestamp,
            flags: 0,
            checksum: 0,
        }
    }

    /// Appends the 24 header bytes to `buf`.
    pub fn serialize(&self, buf: &mut Vec<u8>)
        ensures
            final(buf)@ == old(buf)@ + header_bytes(*self),
    {
        let ghost start = buf@;
        push_u16(buf, self.protocol_id);
        buf.push(self.packet_type.to_u8());
        push_u16(buf, self.stream_id);
        push_u64(buf, self.sequence_number);
        push_u64(buf, self.timestamp);
        buf.push(self.flags);
        push_u16(buf, self.checksum);
        assert(buf@ =~= start + header_bytes(*self));
    }

    /// Reads a header from the first 24 bytes of `buf`.
    pub fn deserialize(buf: &[u8]) -> (r: Result<PacketHeader>)
        ensures
            r == decode_header(buf@),
    {
        if buf.len() < HEADER_SIZE {
            return Err(LostLoveError::InsufficientData { expected: HEADER_SIZE, actual: buf.len() });
        }
        let protocol_id = read_u16(buf, 0);
        if protocol_id != PROTOCOL_ID {
            return Err(LostLoveError::InvalidProtocolId(protocol_id));
        }
        let packet_type = PacketType::from_u8(buf[2])?;
        let stream_id = read_u16(buf, 3);
        let sequence_number = read_u64(buf, 5);
        let timestamp = read_u64(buf, 13);
        let flags = buf[21];
        let checksum = read_u16(buf, 22);
        Ok(PacketHeader {
            protocol_id,
            packet_type,
            stream_id,
            sequence_number,
            timestamp,
            flags,
            checksum,
        })
    }

    /// The header fields that the checksum covers, in wire order.
    fn checksummed_bytes(&self) -> (r: Vec<u8>)
        ensures
            r@ == checksummed_fields(*self),
    {
        let mut data: Vec<u8> = Vec::new();
        push_u16(&mut data, self.protocol_id);
        data.push(self.packet_type.to_u8());
        push_u16(&mut data, self.stream_id);
        push_u64(&mut data, self.sequence_number);
        push_u64(&mut data, self.timestamp);
        data.push(self.flags);
        assert(data@ =~= checksummed_fields(*self));
        data
    }

    /// CRC-16/CCITT over the header fields (without the checksum) followed by the payload.
    pub fn calculate_checksum(&self, payload: &[u8]) -> (r: u16)
        ensures
            r == checksum_of(*self, payload@),
    {
        let data = self.checksummed_bytes();
        let mut crc: u16 = 0xFFFF;
        let mut i: usize = 0;
        while i < data.len()
            invariant
                i <= data@.len(),
                data@ == checksummed_fields(*self),
                crc == crc16(data@.subrange(0, i as int)),
            decreases data@.len() - i,
        {
            assert(data@.subrange(0, i + 1).drop_last() =~= data@.subrange(0, i as int));
            crc = crc_update(crc, data[i]);
            i = i + 1;
        }
        assert(data@.subrange(0, data@.len() as int) =~= data@ + payload@.subrange(0, 0));
        let mut j: usize = 0;
        while j < payload.len()
            invariant
                j <= payload@.len(),
                data@ == checksummed_fields(*self),
                crc == crc16(data@ + payload@.subrange(0, j as int)),
            decreases payload@.len() - j,
        {
            assert((data@ + payload@.subrange(0, j + 1)).drop_last() =~= data@
                + payload@.subrange(0, j as int));
            crc = crc_update(crc, payload[j]);
            j = j + 1;
        }
        assert(payload@.subrange(0, payload@.len() as int) =~= payload@);
        crc
    }

    /// Whether the stored checksum matches the header and payload.
    pub fn verify_checksum(&self, payload: &[u8]) -> (r: bool)
        ensures
            r == (self.checksum == checksum_of(*self, payload@)),
    {
        let calculated = self.calculate_checksum(payload);
        calculated == self.checksum
    }
}

/// A header and its payload.
#[derive(Debug, Clone)]
pub struct Packet {
    pub header: PacketHeader,
    pub payload: Vec<u8>,
}

impl View for Packet {
    type V = (PacketHeader, Seq<u8>);

    open spec fn view(&self) -> (PacketHeader, Seq<u8>) {
        (self.header, self.payload@)
    }
}

impl Packet {
    /// A packet of the given type on the control stream, stamped with the
    /// current time, with its checksum set.
    pub fn new(packet_type: PacketType, payload: Vec<u8>) -> (r: Packet)
        ensures
            well_formed(r.header, r.payload@),
            r.header.packet_type == packet_type,
            r.header.stream_id == 0,
            r.header.sequence_number == 0,
            r.header.flags == 0,
            r.payload@ == payload@,
    {
        Packet::new_with_metadata_at(packet_type, 0, 0, current_timestamp(), payload)
    }

    /// A packet with the given stream and sequence number, stamped with the
    /// current time, with its checksum set.
    pub fn new_with_metadata(
        packet_type: PacketType,
        stream_id: u16,
        sequence_number: u64,
        payload: Vec<u8>,
    ) -> (r: Packet)
        ensures
            well_formed(r.header, r.payload@),
            r.header.packet_type == packet_type,
            r.header.stream_id == stream_id,
            r.header.sequence_number == sequence_number,
            r.header.flags == 0,
            r.payload@ == payload@,
    {
        Packet::new_with_metadata_at(
            packet_type,
            stream_id,
            sequence_number,
            current_timestamp(),
            payload,
        )
    }

    /// As `new_with_metadata`, with the timestamp given.
    pub fn new_with_metadata_at(
        packet_type: PacketType,
        stream_id: u16,
        sequence_number: u64,
        timestamp: u64,
        payload: Vec<u8>,
    ) -> (r: Packet)
        ensures
            well_formed(r.header, r.payload@),
            r.header.packet_type == packet_type,
            r.header.stream_id == stream_id,
            r.header.sequence_number == sequence_number,
            r.header.timestamp == timestamp,
            r.header.flags == 0,
            r.payload@ == payload@,
    {
        let mut header = PacketHeader::new_at(packet_type, timestamp);
        header.stream_id = stream_id;
        header.sequence_number = sequence_number;
        let checksum = header.calculate_checksum(payload.as_slice());
        let ghost unsummed = header;
        header.checksum = checksum;
        assert(checksummed_fields(header) == checksummed_fields(unsummed));
        Packet { header, payload }
    }

    /// The header bytes followed by the payload.
    pub fn serialize(&self) -> (r: Vec<u8>)
        ensures
            r@ == encode(self.header, self.payload@),
    {
        let mut buf: Vec<u8> = Vec::new();
        self.header.serialize(&mut buf);
        let mut i: usize = 0;
        while i < self.payload.len()
            invariant
                i <= self.payload@.len(),
                buf@ == header_bytes(self.header) + self.payload@.subrange(0, i as int),
            decreases self.payload@.len() - i,
        {
            buf.push(self.payload[i]);
            i = i + 1;
            assert(buf@ =~= header_bytes(self.header) + self.payload@.subrange(0, i as int));
        }
        assert(self.payload@.subrange(0, self.payload@.len() as int) =~= self.payload@);
        buf
    }

    /// Parses a header and takes every following byte as the payload, then
    /// checks the checksum.
    pub fn deserialize(buf: &[u8]) -> (r: Result<Packet>)
        ensures
            match r {
                Ok(p) => decode(buf@) == Ok::<(PacketHeader, Seq<u8>), LostLoveError>(p@),
                Err(e) => decode(buf@) == Err::<(PacketHeader, Seq<u8>), LostLoveError>(e),
            },
    {
        let header = PacketHeader::deserialize(buf)?;
        let mut payload: Vec<u8> = Vec::new();
        let mut i: usize = HEADER_SIZE;
        while i < buf.len()
            invariant
                HEADER_SIZE <= i <= buf@.len(),
                payload@ == buf@.subrange(24, i as int),
            decreases buf@.len() - i,
        {
            payload.push(buf[i]);
            i = i + 1;
            assert(payload@ =~= buf@.subrange(24, i as int));
        }
        proof {
            lemma_fields_of_received(buf@);
            assert(checksummed_fields(header) + payload@ =~= buf@.subrange(0, 22) + buf@.subrange(
                24,
                buf@.len() as int,
            ));
        }
        let calculated = header.calculate_checksum(payload.as_slice());
        if calculated != header.checksum {
            return Err(
                LostLoveError::ChecksumMismatch { expected: header.checksum, actual: calculated },
            );
        }
        Ok(Packet { header, payload })
    }

    /// Header size plus payload length.
    pub fn size(&self) -> (r: usize)
        requires
            self.payload@.len() + HEADER_SIZE <= usize::MAX,
        ensures
            r == HEADER_SIZE + self.payload@.len(),
    {
        HEADER_SIZE + self.payload.len()
    }

    /// Whether this is a handshake, keep-alive or disconnect packet.
    pub fn is_control(&self) -> (r: bool)
        ensures
            r == is_control_type(self.header.packet_type),
    {
        match self.header.packet_type {
            PacketType::HandshakeInit
            | PacketType::HandshakeResponse
            | PacketType::KeepAlive
            | PacketType::Disconnect => true,
            _ => false,
        }
    }
}

} // verus!
