//! A connection: who the peer is, who this side is, and how a packet is
//! wrapped into an ICMPv6 Echo Request and unwrapped again.
//!
//! The socket is not here. What is to be sent leaves as bytes, and what has
//! come in arrives as bytes, with the address it came from.

use crate::chance::random_u32;
use crate::packet::{Frame, FrameView, IcmPongPacket};
use pnet::packet::icmpv6::echo_request::MutableEchoRequestPacket;
use pnet::packet::icmpv6::{Icmpv6Packet, Icmpv6Types};
use pnet::packet::Packet;
use vstd::prelude::*;

verus! {

/// The bytes of the ICMPv6 header that precede the frame: type, code and
/// checksum.
pub const HEADER_LENGTH: usize = 4;

/// What stands in the header bytes that this side does not fill in: `.`.
pub const HEADER_PLACEHOLDER: u8 = 46;

/// The ICMPv6 type of an Echo Request.
pub const ECHO_REQUEST: u8 = 128;

/// The Echo Request that carries `payload`.
pub open spec fn echo_request(payload: Seq<u8>) -> Seq<u8> {
    seq![ECHO_REQUEST, HEADER_PLACEHOLDER, HEADER_PLACEHOLDER, HEADER_PLACEHOLDER] + payload
}

/// What an ICMPv6 message carries behind its header.
pub open spec fn message_payload(message: Seq<u8>) -> Seq<u8> {
    if message.len() > HEADER_LENGTH {
        message.skip(HEADER_LENGTH as int)
    } else {
        Seq::empty()
    }
}

/// What an Echo Request carries is what was put into it.
pub proof fn lemma_payload_of_echo_request(payload: Seq<u8>)
    ensures
        message_payload(echo_request(payload)) == payload,
{
    assert(message_payload(echo_request(payload)) =~= payload);
}

/// The frame that went into an Echo Request is the frame that decoding
/// what the message carries gives.
pub proof fn lemma_sent_frame_arrives(frame: FrameView)
    requires
        frame.valid(),
    ensures
        crate::packet::decoded(message_payload(echo_request(frame.bytes()))) == Ok::<
            FrameView,
            crate::packet::IcmPongError,
        >(frame),
{
    lemma_payload_of_echo_request(frame.bytes());
    crate::packet::lemma_decode_encode(frame);
}

/// `MutableEchoRequestPacket::new` on the buffer, then `set_icmpv6_type`
/// with `Icmpv6Types::EchoRequest`. The packet type takes a buffer of at
/// least eight bytes, and the type of an ICMPv6 message is its first byte:
/// the buffer comes back with 128 there and is otherwise as it was.
#[verifier::external_body]
fn stamp_echo_request(buffer: &mut Vec<u8>)
    requires
        old(buffer)@.len() >= 8,
    ensures
        final(buffer)@ == old(buffer)@.update(0, 128u8),
{
    let mut packet = MutableEchoRequestPacket::new(buffer).unwrap();
    packet.set_icmpv6_type(Icmpv6Types::EchoRequest);
}

/// `Icmpv6Packet::new` on the message, then `payload`. The packet type
/// takes a message of at least four bytes, and its payload is all that
/// follows the first four.
#[verifier::external_body]
fn carried_bytes(message: &[u8]) -> (payload: Vec<u8>)
    requires
        message@.len() >= 4,
    ensures
        payload@ == message@.skip(4),
{
    Icmpv6Packet::new(message).unwrap().payload().to_vec()
}

/// One end of a connection.
#[derive(Debug, Clone, Copy, PartialEq, Eq, Structural)]
pub struct IcmPongConnection {
    /// The peer's IPv6 address, as a number.
    pub peer: u128,
    /// This side's session id.
    pub client_id: u32,
}

impl IcmPongConnection {
    /// A connection to `peer`, with a session id drawn at random. The id
    /// tells this side's own frames from its peer's, and the greater of the
    /// two ids makes the host.
    pub fn new(peer: u128) -> (connection: Self)
        ensures
            connection.peer == peer,
    {
        Self { peer, client_id: random_u32() }
    }

    /// Makes the packet ready to be sent: returns the Echo Request that
    /// carries it as a frame of this side's session.
    pub fn send_packet(&self, packet: IcmPongPacket) -> (message: Vec<u8>)
        ensures
            message@ == echo_request(
                (FrameView { session_id: self.client_id, packet: packet@ }).bytes(),
            ),
            message@.len() == 49,
    {
        let frame = Frame { session_id: self.client_id, packet };
        let bytes = frame.encode();
        let mut message: Vec<u8> = Vec::with_capacity(HEADER_LENGTH + bytes.len());
        message.push(HEADER_PLACEHOLDER);
        message.push(HEADER_PLACEHOLDER);
        message.push(HEADER_PLACEHOLDER);
        message.push(HEADER_PLACEHOLDER);
        let ghost head = message@;
        let mut i: usize = 0;
        while i < bytes.len()
            invariant
                i <= bytes@.len(),
                message@ == head + bytes@.subrange(0, i as int),
            decreases bytes@.len() - i,
        {
            message.push(bytes[i]);
            assert(message@ =~= head + bytes@.subrange(0, i + 1));
            i += 1;
        }
        assert(bytes@.subrange(0, bytes@.len() as int) == bytes@);
        stamp_echo_request(&mut message);
        assert(message@ =~= echo_request(bytes@));
        message
    }

    /// Takes an ICMPv6 message that came from `source`: returns what it
    /// carries if it came from the peer, and `None` if it came from
    /// elsewhere.
    pub fn receive_packet(&self, source: u128, message: &[u8]) -> (payload: Option<Vec<u8>>)
        ensures
            match payload {
                Some(payload) => source == self.peer && payload@ == message_payload(message@),
                None => source != self.peer,
            },
    {
        if source != self.peer {
            None
        } else if message.len() > HEADER_LENGTH {
            Some(carried_bytes(message))
        } else {
            Some(Vec::new())
        }
    }
}

} // verus!
