//! The packet envelope.
//!
//! A [`Packet`] carries an opaque payload together with a header naming
//! the sender, a creation timestamp, a content hash and, for replies, the
//! hash of the request being answered. The content hash is computed over
//! the packet serialized with the hash field still empty, then stored; it
//! is both the wire identity of the packet and the correlation key that
//! matches a reply to its pending request.

use vstd::prelude::*;
use crate::addr::Addr;
use crate::digest::{hex_encode, sha256, sha256_of, spec_hex_lower, lemma_hex_lower_shape};
use crate::wire::{encode_packet, spec_encode};
use vstd::utf8::is_ascii_chars;

verus! {

/// Mathematical image of a [`PacketHeader`].
pub struct PacketHeaderV {
    pub sender: Addr,
    pub date: u64,
    pub msg_hash: Seq<char>,
    pub response_to: Seq<char>,
}

/// Mathematical image of a [`Packet`].
pub struct PacketV {
    pub header: PacketHeaderV,
    pub data: Seq<u8>,
}

impl PacketV {
    /// Well-formedness: the hash fields are ASCII (they hold hex digits or
    /// nothing) and every variable-length field fits its 64-bit length
    /// prefix on the wire.
    pub open spec fn wf(self) -> bool {
        &&& is_ascii_chars(self.header.msg_hash)
        &&& is_ascii_chars(self.header.response_to)
        &&& self.header.msg_hash.len() <= u64::MAX
        &&& self.header.response_to.len() <= u64::MAX
        &&& self.data.len() <= u64::MAX
    }

    /// A packet is a reply exactly when `response_to` is non-empty.
    pub open spec fn is_reply(self) -> bool {
        self.header.response_to.len() > 0
    }

    /// The packet with its hash field emptied: the form that is hashed.
    pub open spec fn cleared(self) -> PacketV {
        PacketV {
            header: PacketHeaderV {
                sender: self.header.sender,
                date: self.header.date,
                msg_hash: Seq::empty(),
                response_to: self.header.response_to,
            },
            data: self.data,
        }
    }
}

/// The content hash of a packet: lowercase hex of the SHA-256 digest of
/// the packet serialized with an empty hash field.
pub open spec fn spec_content_hash(p: PacketV) -> Seq<char> {
    spec_hex_lower(sha256_of(spec_encode(p.cleared())))
}

/// What the content hash is computed over pins the packet down: two
/// well-formed packets feed the same bytes to the digest exactly when
/// body, sender, timestamp and `response_to` all agree. So hashing the
/// same fields again gives the same hash, and any change to a field
/// changes the digest input; that distinct inputs then give distinct
/// digests is the collision resistance of the digest itself, which is
/// assumed, not proved.
pub proof fn lemma_content_hash_input(p1: PacketV, p2: PacketV)
    requires
        p1.wf(),
        p2.wf(),
    ensures
        (spec_encode(p1.cleared()) == spec_encode(p2.cleared())) <==> (p1.data == p2.data
            && p1.header.sender == p2.header.sender && p1.header.date == p2.header.date
            && p1.header.response_to == p2.header.response_to),
        (p1.data == p2.data && p1.header.sender == p2.header.sender && p1.header.date
            == p2.header.date && p1.header.response_to == p2.header.response_to)
            ==> spec_content_hash(p1) == spec_content_hash(p2),
{
    if spec_encode(p1.cleared()) == spec_encode(p2.cleared()) {
        crate::wire::lemma_encode_injective(p1.cleared(), p2.cleared());
    }
    if p1.data == p2.data && p1.header.sender == p2.header.sender && p1.header.date
        == p2.header.date && p1.header.response_to == p2.header.response_to {
        assert(p1.cleared() == p2.cleared());
    }
}

/// The header of every wire frame.
pub struct PacketHeader {
    /// Address of the packet's origin, set by the sender.
    pub sender: Addr,
    /// Creation time in microseconds; informational only.
    pub date: u64,
    /// Content hash of the whole packet, hex-encoded.
    pub msg_hash: String,
    /// Empty for a request; the `msg_hash` of the request being answered
    /// for a reply.
    pub response_to: String,
}

impl View for PacketHeader {
    type V = PacketHeaderV;

    open spec fn view(&self) -> PacketHeaderV {
        PacketHeaderV {
            sender: self.sender,
            date: self.date,
            msg_hash: self.msg_hash@,
            response_to: self.response_to@,
        }
    }
}

impl PacketHeader {
    /// A fresh header with an empty hash; the hash is filled in by
    /// [`Packet::new`] once the whole packet exists.
    pub fn new(sender: Addr, response_to: String, date: u64) -> (h: PacketHeader)
        ensures
            h@.sender == sender,
            h@.date == date,
            h@.msg_hash == Seq::<char>::empty(),
            h@.response_to == response_to@,
    {
        PacketHeader { sender, date, msg_hash: String::new(), response_to }
    }
}

/// A wire frame: header plus opaque payload.
pub struct Packet {
    pub header: PacketHeader,
    pub data: Vec<u8>,
}

impl View for Packet {
    type V = PacketV;

    open spec fn view(&self) -> PacketV {
        PacketV { header: self.header@, data: self.data@ }
    }
}

impl Packet {
    /// Builds a packet and stamps its content hash: the packet is
    /// serialized with the hash field still empty, digested, and the hex
    /// digest stored. `date` is the caller's clock reading in
    /// microseconds; identical inputs give the identical packet.
    pub fn new(data: Vec<u8>, sender: Addr, response_to: String, date: u64) -> (p: Packet)
        requires
            is_ascii_chars(response_to@),
        ensures
            p@.header.sender == sender,
            p@.header.date == date,
            p@.header.response_to == response_to@,
            p@.data == data@,
            p@.header.msg_hash == spec_content_hash(p@),
            p@.wf(),
    {
        // Observing the field lengths pins them below the machine word,
        // which well-formedness needs before the packet can be encoded.
        let dlen = data.len();
        let rt_str: &str = response_to.as_str();
        let rbytes: Vec<u8> = rt_str.as_bytes_vec();
        let rlen = rbytes.len();
        proof {
            vstd::string::is_ascii_spec_bytes(rt_str);
            assert(response_to@.len() == rlen);
            assert(data@.len() == dlen);
            assert(usize::MAX <= u64::MAX);
        }
        let mut pack = Packet { header: PacketHeader::new(sender, response_to, date), data };
        let ghost p0: PacketV = pack@;
        proof {
            assert(p0.cleared() == p0);
            assert(p0.wf());
        }
        let serie = encode_packet(&pack);
        let digest = sha256(&serie);
        let hash = hex_encode(&digest);
        proof {
            lemma_hex_lower_shape(digest@);
        }
        pack.header.msg_hash = hash;
        proof {
            assert(pack@.cleared() == p0);
        }
        pack
    }

    /// A fresh packet equal to this one. Packets cross thread boundaries
    /// freely; they carry no live resource, only bytes.
    pub fn duplicate(&self) -> (r: Packet)
        ensures
            r@ == self@,
    {
        Packet {
            header: PacketHeader {
                sender: self.header.sender,
                date: self.header.date,
                msg_hash: self.header.msg_hash.clone(),
                response_to: self.header.response_to.clone(),
            },
            data: crate::utils::clone_bytes(&self.data),
        }
    }
}

} // verus!
