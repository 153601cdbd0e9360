//! The remote-console packet codec.
//!
//! A packet travels as a 4-byte little-endian size, then the id and the type
//! (4 bytes little-endian each), then the body text and two zero bytes. The size
//! counts everything after itself: `8 + body length + 2`.

use vstd::bytes::*;
use vstd::prelude::*;
use vstd::slice::*;
use vstd::utf8::*;

use crate::error::GameRLError;

verus! {

broadcast use vstd::utf8::group_utf8_lib;

/// Wire value of a command packet.
pub const EXEC_COMMAND: i32 = 2;

/// Wire value of an authentication packet.
pub const AUTH: i32 = 3;

/// Packet types that this client sends.
#[derive(Debug, Clone, Copy, PartialEq, Eq, Structural)]
pub enum PacketType {
    /// Execute a command.
    ExecCommand,
    /// Authenticate with the shared secret.
    Auth,
}

/// Wire value of a packet type.
pub open spec fn packet_type_code(t: PacketType) -> i32 {
    match t {
        PacketType::ExecCommand => EXEC_COMMAND,
        PacketType::Auth => AUTH,
    }
}

impl PacketType {
    /// The wire value of this packet type.
    pub fn as_i32(self) -> (r: i32)
        ensures
            r == packet_type_code(self),
    {
        match self {
            PacketType::ExecCommand => EXEC_COMMAND,
            PacketType::Auth => AUTH,
        }
    }
}

/// A single remote-console packet.
#[derive(Debug)]
pub struct RconPacket {
    pub id: i32,
    pub packet_type: i32,
    pub body: String,
}

/// Four little-endian bytes of a signed 32-bit value.
pub open spec fn le_i32(x: i32) -> Seq<u8> {
    spec_u32_to_le_bytes(x as u32)
}

/// The signed 32-bit value of four little-endian bytes.
pub open spec fn from_le_i32(b: Seq<u8>) -> i32 {
    spec_u32_from_le_bytes(b) as i32
}

/// A packet without its size prefix: id, type, body bytes, two zero bytes.
pub open spec fn encode_packet(id: i32, packet_type: i32, body: Seq<u8>) -> Seq<u8> {
    le_i32(id) + le_i32(packet_type) + body + seq![0u8, 0u8]
}

/// A packet as it goes on the wire, size prefix first.
pub open spec fn packet_wire(id: i32, packet_type: i32, body: Seq<u8>) -> Seq<u8> {
    le_i32((body.len() + 10) as i32) + encode_packet(id, packet_type, body)
}

/// Index of the first zero byte of `s`, or its length when it holds none.
pub open spec fn first_nul(s: Seq<u8>) -> nat
    decreases s.len(),
{
    if s.len() == 0 {
        0
    } else if s[0] == 0 {
        0
    } else {
        1 + first_nul(s.drop_first())
    }
}

/// What `String::from_utf8_lossy` makes of bytes that are not valid UTF-8.
pub uninterp spec fn lossy_utf8_of(b: Seq<u8>) -> Seq<char>;

/// The text that a body's bytes decode to.
pub open spec fn decoded_text(b: Seq<u8>) -> Seq<char> {
    if valid_utf8(b) {
        decode_utf8(b)
    } else {
        lossy_utf8_of(b)
    }
}

/// Id, type and body of a packet given without its size prefix; `None` when
/// it is shorter than the ten bytes of fixed overhead. The body ends at the
/// first zero byte after the type.
pub open spec fn decode_packet(data: Seq<u8>) -> Option<(i32, i32, Seq<char>)> {
    if data.len() < 10 {
        None
    } else {
        let rest = data.subrange(8, data.len() as int);
        Some(
            (
                from_le_i32(data.subrange(0, 4)),
                from_le_i32(data.subrange(4, 8)),
                decoded_text(rest.subrange(0, first_nul(rest) as int)),
            ),
        )
    }
}

/// The UTF-8 bytes of a packet's body.
pub open spec fn body_bytes(p: &RconPacket) -> Seq<u8> {
    encode_utf8(p.body@)
}

proof fn lemma_first_nul_unique(s: Seq<u8>, e: int)
    requires
        0 <= e <= s.len(),
        forall|j: int| 0 <= j < e ==> s[j] != 0,
        e < s.len() ==> s[e] == 0,
    ensures
        first_nul(s) == e,
    decreases s.len(),
{
    if s.len() > 0 && e > 0 {
        let t = s.drop_first();
        assert forall|j: int| 0 <= j < e - 1 implies t[j] != 0 by {
            assert(t[j] == s[j + 1]);
        }
        if e - 1 < t.len() {
            assert(t[e - 1] == s[e]);
        }
        lemma_first_nul_unique(t, e - 1);
    }
}

/// Whatever the body, the encoded packet without its size prefix is
/// `8 + L + 2` bytes long for a body of `L` bytes, the size prefix holds
/// exactly that number, and what follows the prefix is the packet itself.
pub proof fn lemma_packet_size(id: i32, packet_type: i32, body: Seq<u8>)
    requires
        body.len() + 10 <= i32::MAX,
    ensures
        encode_packet(id, packet_type, body).len() == 8 + body.len() + 2,
        packet_wire(id, packet_type, body).len() == 4 + 8 + body.len() + 2,
        from_le_i32(packet_wire(id, packet_type, body).subrange(0, 4)) == 8 + body.len() + 2,
        packet_wire(id, packet_type, body).subrange(4, 4 + 8 + body.len() as int + 2) == encode_packet(
            id,
            packet_type,
            body,
        ),
{
    lemma_auto_spec_u32_to_from_le_bytes();
    let w = packet_wire(id, packet_type, body);
    let size = (body.len() + 10) as i32;
    assert(w.subrange(0, 4) =~= le_i32(size));
    assert(w.subrange(4, w.len() as int) =~= encode_packet(id, packet_type, body));
    lemma_i32_u32_cast(size);
}

/// Decoding what `to_bytes` writes, size prefix left out, gives back the
/// packet's id, type and body, for every body without a NUL character (the
/// body is NUL-terminated on the wire) whose length fits the size field.
pub proof fn lemma_packet_round_trip(id: i32, packet_type: i32, body: Seq<char>)
    requires
        encode_utf8(body).len() + 10 <= i32::MAX,
        forall|i: int| 0 <= i < body.len() ==> body[i] != '\0',
    ensures
        ({
            let w = packet_wire(id, packet_type, encode_utf8(body));
            decode_packet(w.subrange(4, w.len() as int)) == Some((id, packet_type, body))
        }),
{
    lemma_auto_spec_u32_to_from_le_bytes();
    let b = encode_utf8(body);
    lemma_utf8_without_nul(body);
    lemma_packet_size(id, packet_type, b);
    let w = packet_wire(id, packet_type, b);
    let d = encode_packet(id, packet_type, b);
    assert(w.subrange(4, w.len() as int) == d);
    assert(d.subrange(0, 4) =~= le_i32(id));
    assert(d.subrange(4, 8) =~= le_i32(packet_type));
    lemma_i32_u32_cast(id);
    lemma_i32_u32_cast(packet_type);
    let rest = d.subrange(8, d.len() as int);
    assert(rest =~= b + seq![0u8, 0u8]);
    assert forall|j: int| 0 <= j < b.len() implies rest[j] != 0 by {
        assert(rest[j] == b[j]);
    }
    lemma_first_nul_unique(rest, b.len() as int);
    assert(rest.subrange(0, b.len() as int) =~= b);
}

proof fn lemma_or_nonzero(x: u8)
    ensures
        (0xC0u8 | x) != 0,
        (0xE0u8 | x) != 0,
        (0xF0u8 | x) != 0,
        (0x80u8 | x) != 0,
{
    assert((0xC0u8 | x) != 0 && (0xE0u8 | x) != 0 && (0xF0u8 | x) != 0 && (0x80u8 | x) != 0)
        by (bit_vector);
}

proof fn lemma_scalar_without_nul(c: char)
    requires
        c != '\0',
    ensures
        forall|j: int| 0 <= j < encode_scalar(c as u32).len() ==> #[trigger] encode_scalar(c as u32)[j] != 0,
{
    let v = c as u32;
    if v == 0 {
        assert((v as char) == c);
        assert((0u32 as char) == '\0');
    }
    if has_width_1_encoding(v) {
        assert(1 <= v <= 0x7f ==> (v & 0x7f) as u8 != 0) by (bit_vector);
    } else {
        lemma_or_nonzero(((v >> 6) & 0x1F) as u8);
        lemma_or_nonzero(((v >> 12) & 0x0F) as u8);
        lemma_or_nonzero(((v >> 18) & 0x7) as u8);
        lemma_or_nonzero((v & 0x3F) as u8);
        lemma_or_nonzero(((v >> 6) & 0x3F) as u8);
        lemma_or_nonzero(((v >> 12) & 0x3F) as u8);
    }
}

proof fn lemma_utf8_without_nul(body: Seq<char>)
    requires
        forall|i: int| 0 <= i < body.len() ==> body[i] != '\0',
    ensures
        forall|j: int| 0 <= j < encode_utf8(body).len() ==> encode_utf8(body)[j] != 0,
    decreases body.len(),
{
    if body.len() > 0 {
        let rest = body.drop_first();
        assert forall|i: int| 0 <= i < rest.len() implies rest[i] != '\0' by {
            assert(rest[i] == body[i + 1]);
        }
        lemma_utf8_without_nul(rest);
        lemma_scalar_without_nul(body[0]);
        let h = encode_scalar(body[0] as u32);
        let t = encode_utf8(rest);
        assert(encode_utf8(body) == h + t);
        assert forall|j: int| 0 <= j < encode_utf8(body).len() implies encode_utf8(body)[j] != 0 by {
            if j < h.len() {
                assert(encode_utf8(body)[j] == h[j]);
            } else {
                assert(encode_utf8(body)[j] == t[j - h.len()]);
            }
        }
    }
}

proof fn lemma_i32_u32_cast(x: i32)
    ensures
        (x as u32) as i32 == x,
{
    assert((x as u32) as i32 == x) by (bit_vector);
}

/// Relies on `String::from_utf8_lossy`: valid UTF-8 is decoded as it stands;
/// other bytes give the library's replacement text.
#[verifier::external_body]
fn lossy_text(b: &[u8]) -> (r: String)
    ensures
        r@ == lossy_utf8_of(b@),
        valid_utf8(b@) ==> r@ == decode_utf8(b@),
{
    String::from_utf8_lossy(b).to_string()
}

fn push_le_i32(buf: &mut Vec<u8>, x: i32)
    ensures
        final(buf)@ == old(buf)@ + le_i32(x),
{
    let mut b = u32_to_le_bytes(x as u32);
    buf.append(&mut b);
}

fn read_le_i32(data: &[u8], at: usize) -> (r: i32)
    requires
        at + 4 <= data@.len(),
    ensures
        r == from_le_i32(data@.subrange(at as int, at + 4)),
{
    let n = data.len();
    let s = slice_subrange(data, at, at + 4);
    #[verifier::truncate]
    let r = u32_from_le_bytes(s) as i32;
    r
}

impl RconPacket {
    /// A packet with the given id, type and body.
    pub fn new(id: i32, packet_type: PacketType, body: &str) -> (r: RconPacket)
        ensures
            r.id == id,
            r.packet_type == packet_type_code(packet_type),
            r.body@ == body@,
    {
        RconPacket { id, packet_type: packet_type.as_i32(), body: body.to_owned() }
    }

    /// The packet on the wire: size prefix, id, type, body, two zero bytes.
    pub fn to_bytes(&self) -> (r: Vec<u8>)
        requires
            body_bytes(self).len() + 10 <= i32::MAX,
        ensures
            r@ == packet_wire(self.id, self.packet_type, body_bytes(self)),
    {
        let body = self.body.as_str().as_bytes();
        let size: usize = 4 + 4 + body.len() + 2;
        let mut buf: Vec<u8> = Vec::new();
        push_le_i32(&mut buf, size as i32);
        push_le_i32(&mut buf, self.id);
        push_le_i32(&mut buf, self.packet_type);
        let ghost head = buf@;
        let mut i: usize = 0;
        while i < body.len()
            invariant
                0 <= i <= body@.len(),
                body@ == body_bytes(self),
                buf@ == head + body@.subrange(0, i as int),
            decreases body@.len() - i,
        {
            buf.push(body[i]);
            i = i + 1;
            assert(buf@ =~= head + body@.subrange(0, i as int));
        }
        buf.push(0);
        buf.push(0);
        assert(buf@ =~= packet_wire(self.id, self.packet_type, body_bytes(self)));
        buf
    }

    /// Parses a packet given without its size prefix. The body runs up to the
    /// first zero byte after the type, or to the end when there is none.
    pub fn from_bytes(data: &[u8]) -> (r: Result<RconPacket, GameRLError>)
        ensures
            data@.len() < 10 <==> r is Err,
            r is Err ==> r->Err_0 is ProtocolError,
            r matches Ok(p) ==> decode_packet(data@) == Some((p.id, p.packet_type, p.body@)),
    {
        if data.len() < 10 {
            return Err(GameRLError::ProtocolError("RCON packet too short".to_string()));
        }
        let id = read_le_i32(data, 0);
        let packet_type = read_le_i32(data, 4);
        let ghost rest = data@.subrange(8, data@.len() as int);
        let mut end: usize = 8;
        while end < data.len() && data[end] != 0
            invariant
                8 <= end <= data@.len(),
                forall|j: int| 8 <= j < end ==> data@[j] != 0,
            decreases data@.len() - end,
        {
            end = end + 1;
        }
        proof {
            assert forall|j: int| 0 <= j < end - 8 implies rest[j] != 0 by {
                assert(rest[j] == data@[j + 8]);
            }
            if end - 8 < rest.len() {
                assert(rest[end - 8] == data@[end as int]);
            }
            lemma_first_nul_unique(rest, end - 8);
        }
        let text = slice_subrange(data, 8, end);
        assert(text@ =~= rest.subrange(0, first_nul(rest) as int));
        let body = lossy_text(text);
        Ok(RconPacket { id, packet_type, body })
    }
}

} // verus!
