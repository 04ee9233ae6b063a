//! The binary wire format.
//!
//! Every frame is one serialized packet, laid out as:
//!
//! ```text
//! offset 0   sender: four IPv4 octets, then the port as two bytes LE
//! offset 6   date: u64 LE, microseconds
//! offset 14  msg_hash: u64 LE length, then that many ASCII bytes
//! ...        response_to: u64 LE length, then that many ASCII bytes
//! ...        data: u64 LE length, then that many raw bytes
//! ```
//!
//! Integers are little-endian throughout. Decoding rejects any frame that
//! is truncated, has a non-ASCII byte inside a hash field, or has bytes
//! left over after the payload; a malformed frame is reported, never a
//! panic, so one bad peer cannot take the read loop down.

use vstd::prelude::*;
use vstd::string::StrSliceExecFns;
use vstd::string::StringSliceAdditionalSpecFns;
use crate::addr::Addr;
use crate::proto::{Packet, PacketHeader, PacketHeaderV, PacketV};
use crate::utils::{
    push_u64_le, read_u64_le, u16_from_le_bytes, u16_le_bytes, u64_from_le_bytes, u64_le_bytes,
    lemma_u16_le_round_trip, lemma_u64_le_round_trip,
};
use vstd::utf8::is_ascii_chars;

verus! {

/// The bytes of an ASCII character sequence, one byte per character.
pub open spec fn ascii_bytes(s: Seq<char>) -> Seq<u8> {
    Seq::new(s.len(), |i: int| s[i] as u8)
}

/// The characters of a byte sequence that is all below `0x80`.
pub open spec fn ascii_chars(b: Seq<u8>) -> Seq<char> {
    b.map(|_i: int, x: u8| x as char)
}

/// All bytes below `0x80`.
pub open spec fn all_ascii_bytes(b: Seq<u8>) -> bool {
    forall|i: int| 0 <= i < b.len() ==> b[i] < 0x80
}

/// Bytes of ASCII characters decode back to the same characters.
pub proof fn lemma_ascii_round_trip(s: Seq<char>)
    requires
        is_ascii_chars(s),
    ensures
        all_ascii_bytes(ascii_bytes(s)),
        ascii_chars(ascii_bytes(s)) =~= s,
{
}

/// The serialized form of a packet.
pub open spec fn spec_encode(p: PacketV) -> Seq<u8> {
    seq![p.header.sender.a, p.header.sender.b, p.header.sender.c, p.header.sender.d]
        + u16_le_bytes(p.header.sender.port) + u64_le_bytes(p.header.date) + u64_le_bytes(
        p.header.msg_hash.len() as u64,
    ) + ascii_bytes(p.header.msg_hash) + u64_le_bytes(p.header.response_to.len() as u64)
        + ascii_bytes(p.header.response_to) + u64_le_bytes(p.data.len() as u64) + p.data
}

/// Reads one length-prefixed ASCII field at `off`: `None` on truncation
/// or on any byte at or above `0x80`; otherwise the characters and the
/// offset just past the field.
pub open spec fn spec_take_str(b: Seq<u8>, off: int) -> Option<(Seq<char>, int)> {
    if off + 8 > b.len() {
        None
    } else {
        let n = u64_from_le_bytes(b.subrange(off, off + 8)) as int;
        if off + 8 + n > b.len() {
            None
        } else if !all_ascii_bytes(b.subrange(off + 8, off + 8 + n)) {
            None
        } else {
            Some((ascii_chars(b.subrange(off + 8, off + 8 + n)), off + 8 + n))
        }
    }
}

/// Reads one length-prefixed raw field at `off`.
pub open spec fn spec_take_bytes(b: Seq<u8>, off: int) -> Option<(Seq<u8>, int)> {
    if off + 8 > b.len() {
        None
    } else {
        let n = u64_from_le_bytes(b.subrange(off, off + 8)) as int;
        if off + 8 + n > b.len() {
            None
        } else {
            Some((b.subrange(off + 8, off + 8 + n), off + 8 + n))
        }
    }
}

/// The packet a frame decodes to, if it is well formed: fixed header
/// fields, three length-prefixed fields, and nothing left over.
pub open spec fn spec_decode(b: Seq<u8>) -> Option<PacketV> {
    if b.len() < 14 {
        None
    } else {
        let sender = Addr {
            a: b[0],
            b: b[1],
            c: b[2],
            d: b[3],
            port: u16_from_le_bytes(b.subrange(4, 6)),
        };
        let date = u64_from_le_bytes(b.subrange(6, 14));
        match spec_take_str(b, 14) {
            None => None,
            Some((msg_hash, o1)) => match spec_take_str(b, o1) {
                None => None,
                Some((response_to, o2)) => match spec_take_bytes(b, o2) {
                    None => None,
                    Some((data, o3)) => {
                        if o3 == b.len() {
                            Some(
                                PacketV {
                                    header: PacketHeaderV { sender, date, msg_hash, response_to },
                                    data,
                                },
                            )
                        } else {
                            None
                        }
                    },
                },
            },
        }
    }
}

/// Appends a length-prefixed ASCII string field.
fn push_str_field(out: &mut Vec<u8>, s: &String)
    requires
        is_ascii_chars(s@),
    ensures
        final(out)@ == old(out)@ + u64_le_bytes(s@.len() as u64) + ascii_bytes(s@),
{
    let st: &str = s.as_str();
    let bytes: Vec<u8> = st.as_bytes_vec();
    proof {
        vstd::string::is_ascii_spec_bytes(st);
        assert(bytes@ =~= ascii_bytes(s@));
        assert(usize::MAX <= u64::MAX);
    }
    let n = bytes.len();
    push_u64_le(out, n as u64);
    let mut rest = bytes;
    out.append(&mut rest);
}

/// Serializes a packet into one wire frame.
pub fn encode_packet(p: &Packet) -> (r: Vec<u8>)
    requires
        p@.wf(),
    ensures
        r@ == spec_encode(p@),
{
    let mut out: Vec<u8> = Vec::new();
    out.push(p.header.sender.a);
    out.push(p.header.sender.b);
    out.push(p.header.sender.c);
    out.push(p.header.sender.d);
    let port = p.header.sender.port;
    proof {
        assert((port & 0xff) < 256 && ((port >> 8) & 0xff) < 256) by (bit_vector);
    }
    out.push((port & 0xff) as u8);
    out.push(((port >> 8) & 0xff) as u8);
    push_u64_le(&mut out, p.header.date);
    push_str_field(&mut out, &p.header.msg_hash);
    push_str_field(&mut out, &p.header.response_to);
    let dlen = p.data.len();
    proof {
        assert(usize::MAX <= u64::MAX);
    }
    push_u64_le(&mut out, dlen as u64);
    out.extend_from_slice(p.data.as_slice());
    proof {
        assert(out@ =~= spec_encode(p@));
    }
    out
}

/// Reads one length-prefixed ASCII field; mirrors [`spec_take_str`].
#[verifier::loop_isolation(false)]
fn take_str(b: &Vec<u8>, off: usize) -> (r: Option<(String, usize)>)
    requires
        off <= b@.len(),
    ensures
        match r {
            Some((s, end)) => spec_take_str(b@, off as int) == Some((s@, end as int)) && off < end
                <= b@.len() && is_ascii_chars(s@),
            None => spec_take_str(b@, off as int) is None,
        },
{
    let len = b.len();
    if len - off < 8 {
        return None;
    }
    let n64 = read_u64_le(b, off);
    let remaining = len - (off + 8);
    if n64 > remaining as u64 {
        return None;
    }
    let n = n64 as usize;
    let start = off + 8;
    let mut field: Vec<u8> = Vec::new();
    let mut i: usize = 0;
    while i < n
        invariant
            i <= n,
            start + n <= len,
            len == b@.len(),
            field@ =~= b@.subrange(start as int, start as int + i as int),
            all_ascii_bytes(field@),
        decreases n - i,
    {
        let x = b[start + i];
        if x >= 0x80 {
            proof {
                assert(b@.subrange(start as int, start as int + n as int)[i as int] == b@[start
                    as int + i as int]);
                assert(!all_ascii_bytes(b@.subrange(start as int, start as int + n as int)));
            }
            return None;
        }
        field.push(x);
        i = i + 1;
        proof {
            assert(field@ =~= b@.subrange(start as int, start as int + i as int));
        }
    }
    let s = ascii_to_string(field);
    proof {
        assert(s@ =~= ascii_chars(b@.subrange(start as int, start as int + n as int)));
    }
    Some((s, start + n))
}

/// Reads one length-prefixed raw field; mirrors [`spec_take_bytes`].
#[verifier::loop_isolation(false)]
fn take_bytes(b: &Vec<u8>, off: usize) -> (r: Option<(Vec<u8>, usize)>)
    requires
        off <= b@.len(),
    ensures
        match r {
            Some((v, end)) => spec_take_bytes(b@, off as int) == Some((v@, end as int)) && off
                < end <= b@.len(),
            None => spec_take_bytes(b@, off as int) is None,
        },
{
    let len = b.len();
    if len - off < 8 {
        return None;
    }
    let n64 = read_u64_le(b, off);
    let remaining = len - (off + 8);
    if n64 > remaining as u64 {
        return None;
    }
    let n = n64 as usize;
    let start = off + 8;
    let mut field: Vec<u8> = Vec::new();
    let mut i: usize = 0;
    while i < n
        invariant
            i <= n,
            start + n <= len,
            len == b@.len(),
            field@ =~= b@.subrange(start as int, start as int + i as int),
        decreases n - i,
    {
        field.push(b[start + i]);
        i = i + 1;
        proof {
            assert(field@ =~= b@.subrange(start as int, start as int + i as int));
        }
    }
    Some((field, start + n))
}

/// Relies on `String::from_utf8`: bytes below `0x80` are valid UTF-8 and
/// decode to one character of the same value each.
#[verifier::external_body]
fn ascii_to_string(bytes: Vec<u8>) -> (r: String)
    requires
        all_ascii_bytes(bytes@),
    ensures
        r@ == ascii_chars(bytes@),
{
    String::from_utf8(bytes).unwrap_or_default()
}

/// Parses one wire frame back into a packet. Returns `None` on any
/// malformed frame; never panics, whatever the bytes hold.
pub fn decode_packet(b: &Vec<u8>) -> (r: Option<Packet>)
    ensures
        match r {
            Some(p) => spec_decode(b@) == Some(p@) && p@.wf(),
            None => spec_decode(b@) is None,
        },
{
    let len = b.len();
    if len < 14 {
        return None;
    }
    let port = u16_read_le(b, 4);
    let sender = Addr { a: b[0], b: b[1], c: b[2], d: b[3], port };
    let date = read_u64_le(b, 6);
    let f1 = match take_str(b, 14) {
        None => {
            return None;
        },
        Some(x) => x,
    };
    let (msg_hash, o1) = f1;
    let f2 = match take_str(b, o1) {
        None => {
            return None;
        },
        Some(x) => x,
    };
    let (response_to, o2) = f2;
    let f3 = match take_bytes(b, o2) {
        None => {
            return None;
        },
        Some(x) => x,
    };
    let (data, o3) = f3;
    if o3 != len {
        return None;
    }
    proof {
        assert(usize::MAX <= u64::MAX);
    }
    let p = Packet { header: PacketHeader { sender, date, msg_hash, response_to }, data };
    Some(p)
}

/// Decoding inverts encoding: every well-formed packet comes back from
/// its own frame unchanged. Together with [`lemma_encode_injective`] this
/// is the round-trip guarantee of the wire format.
pub proof fn lemma_decode_encode(p: PacketV)
    requires
        p.wf(),
    ensures
        spec_decode(spec_encode(p)) == Some(p),
{
    let e = spec_encode(p);
    let n1 = p.header.msg_hash.len() as int;
    let n2 = p.header.response_to.len() as int;
    let n3 = p.data.len() as int;
    let p0 = seq![p.header.sender.a, p.header.sender.b, p.header.sender.c, p.header.sender.d];
    let p1 = u16_le_bytes(p.header.sender.port);
    let p2 = u64_le_bytes(p.header.date);
    let p3 = u64_le_bytes(p.header.msg_hash.len() as u64);
    let p4 = ascii_bytes(p.header.msg_hash);
    let p5 = u64_le_bytes(p.header.response_to.len() as u64);
    let p6 = ascii_bytes(p.header.response_to);
    let p7 = u64_le_bytes(p.data.len() as u64);
    let p8 = p.data;
    assert(e.len() == 38 + n1 + n2 + n3);
    assert(e[0] == p.header.sender.a && e[1] == p.header.sender.b && e[2] == p.header.sender.c
        && e[3] == p.header.sender.d);
    assert(e.subrange(4, 6) =~= p1);
    assert(e.subrange(6, 14) =~= p2);
    assert(e.subrange(14, 22) =~= p3);
    assert(e.subrange(22, 22 + n1) =~= p4);
    assert(e.subrange(22 + n1, 30 + n1) =~= p5);
    assert(e.subrange(30 + n1, 30 + n1 + n2) =~= p6);
    assert(e.subrange(30 + n1 + n2, 38 + n1 + n2) =~= p7);
    assert(e.subrange(38 + n1 + n2, 38 + n1 + n2 + n3) =~= p8);
    lemma_u16_le_round_trip(p.header.sender.port);
    lemma_u64_le_round_trip(p.header.date);
    lemma_u64_le_round_trip(p.header.msg_hash.len() as u64);
    lemma_u64_le_round_trip(p.header.response_to.len() as u64);
    lemma_u64_le_round_trip(p.data.len() as u64);
    lemma_ascii_round_trip(p.header.msg_hash);
    lemma_ascii_round_trip(p.header.response_to);
    assert(spec_take_str(e, 14) == Some((p.header.msg_hash, 22 + n1))) by {
        assert(ascii_chars(e.subrange(22, 22 + n1)) =~= p.header.msg_hash);
    }
    assert(spec_take_str(e, 22 + n1) == Some((p.header.response_to, 30 + n1 + n2))) by {
        assert(ascii_chars(e.subrange(30 + n1, 30 + n1 + n2)) =~= p.header.response_to);
    }
    assert(spec_take_bytes(e, 30 + n1 + n2) == Some((p.data, 38 + n1 + n2 + n3)));
    assert(spec_decode(e) == Some(p));
}

/// The wire format is injective: two well-formed packets with the same
/// frame are the same packet.
pub proof fn lemma_encode_injective(p1: PacketV, p2: PacketV)
    requires
        p1.wf(),
        p2.wf(),
        spec_encode(p1) == spec_encode(p2),
    ensures
        p1 == p2,
{
    lemma_decode_encode(p1);
    lemma_decode_encode(p2);
}

/// Reads the little-endian `u16` stored at `b[off..off + 2]`.
fn u16_read_le(b: &Vec<u8>, off: usize) -> (r: u16)
    requires
        off + 2 <= b@.len(),
    ensures
        r == u16_from_le_bytes(b@.subrange(off as int, off as int + 2)),
{
    let len = b.len();
    assert(off + 2 <= len);
    let r: u16 = (b[off] as u16) | ((b[off + 1] as u16) << 8);
    proof {
        let s = b@.subrange(off as int, off as int + 2);
        assert(s[0] == b@[off as int] && s[1] == b@[off as int + 1]);
    }
    r
}

} // verus!
