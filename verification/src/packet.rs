//! The frame: the one fixed-size message of the protocol, and its codec.
//!
//! | offset | size | field                |
//! |--------|------|----------------------|
//! | 0      | 7    | marker `ICMPong`     |
//! | 7      | 1    | protocol version     |
//! | 8      | 4    | session id           |
//! | 12     | 1    | packet type ordinal  |
//! | 13     | 32   | payload              |

use crate::wire::{get_u32, u32_bytes, u32_value};
use vstd::prelude::*;

verus! {

/// The protocol version that this implementation speaks.
pub const PROTOCOL_VERSION: u8 = 0;

/// The bytes of a payload.
pub const PAYLOAD_LENGTH: usize = 32;

/// The bytes of an encoded frame.
pub const FRAME_LENGTH: usize = 45;

/// The marker that opens every frame: `ICMPong` in ASCII.
pub const MAGIC: [u8; 7] = [73, 67, 77, 80, 111, 110, 103];

/// The marker as a sequence.
pub open spec fn magic() -> Seq<u8> {
    seq![73u8, 67u8, 77u8, 80u8, 111u8, 110u8, 103u8]
}

/// `std::io::Error`, the error of the socket. It is carried inside an
/// `IcmPongError` and never looked into.
#[verifier::external_type_specification]
#[verifier::external_body]
pub struct ExIoError(std::io::Error);

/// What ends a session.
#[derive(Debug)]
pub enum IcmPongError {
    /// The raw socket could not be created.
    CreateSocketError(std::io::Error),
    /// The socket refused a frame.
    SendPacketError(std::io::Error),
    /// The socket failed while waiting for a packet.
    ReceivePacketError(std::io::Error),
    /// The buffer does not open with the marker: not a frame of this protocol.
    MissingMagic,
    /// The peer speaks another version of the protocol.
    VersionMismatch { ours: u8, theirs: u8 },
    /// The buffer opens like a frame but has the wrong length.
    InvalidPacketSize { expected: usize, found: usize },
    /// The ordinal of the packet type is none of the known ones.
    UnknownPacketType(u8),
}

/// What a frame is about.
#[derive(Debug, Clone, Copy, PartialEq, Eq, Structural)]
pub enum IcmPongPacketType {
    Ping,
    Ready,
    Start,
    PaddlePosition,
    BallUpdate,
    ScoreUpdate,
    Disconnect,
}

impl IcmPongPacketType {
    /// The byte that stands for this type on the wire.
    pub open spec fn ordinal(self) -> u8 {
        match self {
            IcmPongPacketType::Ping => 0,
            IcmPongPacketType::Ready => 1,
            IcmPongPacketType::Start => 2,
            IcmPongPacketType::PaddlePosition => 3,
            IcmPongPacketType::BallUpdate => 4,
            IcmPongPacketType::ScoreUpdate => 5,
            IcmPongPacketType::Disconnect => 6,
        }
    }

    /// The type that a wire byte stands for, if any.
    pub open spec fn of_ordinal(ordinal: u8) -> Option<IcmPongPacketType> {
        if ordinal == 0 {
            Some(IcmPongPacketType::Ping)
        } else if ordinal == 1 {
            Some(IcmPongPacketType::Ready)
        } else if ordinal == 2 {
            Some(IcmPongPacketType::Start)
        } else if ordinal == 3 {
            Some(IcmPongPacketType::PaddlePosition)
        } else if ordinal == 4 {
            Some(IcmPongPacketType::BallUpdate)
        } else if ordinal == 5 {
            Some(IcmPongPacketType::ScoreUpdate)
        } else if ordinal == 6 {
            Some(IcmPongPacketType::Disconnect)
        } else {
            None
        }
    }

    /// The byte that stands for this type on the wire.
    pub fn to_u8(self) -> (ordinal: u8)
        ensures
            ordinal == self.ordinal(),
    {
        match self {
            IcmPongPacketType::Ping => 0,
            IcmPongPacketType::Ready => 1,
            IcmPongPacketType::Start => 2,
            IcmPongPacketType::PaddlePosition => 3,
            IcmPongPacketType::BallUpdate => 4,
            IcmPongPacketType::ScoreUpdate => 5,
            IcmPongPacketType::Disconnect => 6,
        }
    }

    /// The type that a wire byte stands for; `None` for a byte above 6.
    pub fn from_u8(ordinal: u8) -> (packet_type: Option<IcmPongPacketType>)
        ensures
            packet_type == Self::of_ordinal(ordinal),
    {
        match ordinal {
            0 => Some(IcmPongPacketType::Ping),
            1 => Some(IcmPongPacketType::Ready),
            2 => Some(IcmPongPacketType::Start),
            3 => Some(IcmPongPacketType::PaddlePosition),
            4 => Some(IcmPongPacketType::BallUpdate),
            5 => Some(IcmPongPacketType::ScoreUpdate),
            6 => Some(IcmPongPacketType::Disconnect),
            _ => None,
        }
    }
}

/// The ordinals 0 to 6 and the seven types stand for each other one to one.
pub proof fn lemma_ordinals(packet_type: IcmPongPacketType, ordinal: u8)
    ensures
        packet_type.ordinal() <= 6,
        IcmPongPacketType::of_ordinal(packet_type.ordinal()) == Some(packet_type),
        IcmPongPacketType::of_ordinal(ordinal) is Some <==> ordinal <= 6,
        IcmPongPacketType::of_ordinal(ordinal) == Some(packet_type) ==> packet_type.ordinal()
            == ordinal,
{
}

/// What one side hands to its connection to be sent: a type and its payload.
#[derive(Debug, Clone, Copy, PartialEq, Eq)]
pub struct IcmPongPacket {
    pub version: u8,
    pub packet_type: IcmPongPacketType,
    pub packet_data: [u8; 32],
}

/// A packet as plain values.
pub struct PacketView {
    pub version: u8,
    pub packet_type: IcmPongPacketType,
    pub data: Seq<u8>,
}

impl View for IcmPongPacket {
    type V = PacketView;

    open spec fn view(&self) -> PacketView {
        PacketView {
            version: self.version,
            packet_type: self.packet_type,
            data: self.packet_data@,
        }
    }
}

impl IcmPongPacket {
    /// A packet of this implementation's protocol version.
    pub fn new(packet_type: IcmPongPacketType, packet_data: &[u8; 32]) -> (packet: Self)
        ensures
            packet@ == (PacketView {
                version: PROTOCOL_VERSION,
                packet_type,
                data: packet_data@,
            }),
    {
        Self { version: PROTOCOL_VERSION, packet_type, packet_data: *packet_data }
    }
}

/// A packet together with the session that sent it: what travels.
#[derive(Debug, Clone, Copy, PartialEq, Eq)]
pub struct Frame {
    pub session_id: u32,
    pub packet: IcmPongPacket,
}

/// A frame as plain values.
pub struct FrameView {
    pub session_id: u32,
    pub packet: PacketView,
}

impl View for Frame {
    type V = FrameView;

    open spec fn view(&self) -> FrameView {
        FrameView { session_id: self.session_id, packet: self.packet@ }
    }
}

impl FrameView {
    /// A frame that this implementation sends and accepts: its own version,
    /// a payload of 32 bytes.
    pub open spec fn valid(self) -> bool {
        self.packet.version == PROTOCOL_VERSION && self.packet.data.len() == 32
    }

    /// The 45 bytes of the frame.
    pub open spec fn bytes(self) -> Seq<u8> {
        magic() + seq![self.packet.version] + u32_bytes(self.session_id) + seq![
            self.packet.packet_type.ordinal(),
        ] + self.packet.data
    }
}

/// Whether the buffer opens with the marker.
pub open spec fn has_magic(buffer: Seq<u8>) -> bool {
    buffer.len() >= 7 && buffer.subrange(0, 7) == magic()
}

/// What decoding makes of a buffer. The checks come in this order: the
/// marker, the version, the length, the packet type.
pub open spec fn decoded(buffer: Seq<u8>) -> Result<FrameView, IcmPongError> {
    if !has_magic(buffer) {
        Err(IcmPongError::MissingMagic)
    } else if buffer.len() > 7 && buffer[7] != PROTOCOL_VERSION {
        Err(IcmPongError::VersionMismatch { ours: PROTOCOL_VERSION, theirs: buffer[7] })
    } else if buffer.len() != 45 {
        Err(
            IcmPongError::InvalidPacketSize {
                expected: FRAME_LENGTH,
                found: buffer.len() as usize,
            },
        )
    } else {
        match IcmPongPacketType::of_ordinal(buffer[12]) {
            None => Err(IcmPongError::UnknownPacketType(buffer[12])),
            Some(packet_type) => Ok(
                FrameView {
                    session_id: u32_value(buffer.subrange(8, 12)),
                    packet: PacketView {
                        version: buffer[7],
                        packet_type,
                        data: buffer.subrange(13, 45),
                    },
                },
            ),
        }
    }
}

impl Frame {
    /// The frame on the wire.
    pub fn encode(&self) -> (bytes: Vec<u8>)
        ensures
            bytes@ == self@.bytes(),
            bytes@.len() == 45,
    {
        let mut bytes: Vec<u8> = Vec::with_capacity(FRAME_LENGTH);
        let mut i: usize = 0;
        while i < 7
            invariant
                i <= 7,
                bytes@ == magic().subrange(0, i as int),
            decreases 7 - i,
        {
            bytes.push(MAGIC[i]);
            i += 1;
        }
        bytes.push(self.packet.version);
        let id: u32 = self.session_id;
        bytes.push((id % 256) as u8);
        bytes.push((id / 256 % 256) as u8);
        bytes.push((id / 65536 % 256) as u8);
        bytes.push((id / 16777216) as u8);
        bytes.push(self.packet.packet_type.to_u8());
        assert(bytes@ == magic() + seq![self.packet.version] + u32_bytes(self.session_id) + seq![
            self.packet.packet_type.ordinal(),
        ]);
        let ghost head = bytes@;
        let mut j: usize = 0;
        while j < 32
            invariant
                j <= 32,
                bytes@ == head + self.packet.packet_data@.subrange(0, j as int),
            decreases 32 - j,
        {
            bytes.push(self.packet.packet_data[j]);
            j += 1;
        }
        assert(self.packet.packet_data@.subrange(0, 32) == self.packet.packet_data@);
        bytes
    }

    /// Reads one frame from a buffer, or says why the buffer holds none.
    pub fn decode(buffer: &[u8]) -> (result: Result<Frame, IcmPongError>)
        ensures
            match result {
                Ok(frame) => decoded(buffer@) == Ok::<FrameView, IcmPongError>(frame@),
                Err(error) => decoded(buffer@) == Err::<FrameView, IcmPongError>(error),
            },
    {
        if buffer.len() < 7 {
            return Err(IcmPongError::MissingMagic);
        }
        let mut i: usize = 0;
        while i < 7
            invariant
                i <= 7,
                buffer@.len() >= 7,
                buffer@.subrange(0, i as int) == magic().subrange(0, i as int),
            decreases 7 - i,
        {
            if buffer[i] != MAGIC[i] {
                assert(buffer@.subrange(0, 7)[i as int] != magic()[i as int]);
                return Err(IcmPongError::MissingMagic);
            }
            assert(buffer@.subrange(0, i + 1) == buffer@.subrange(0, i as int).push(
                buffer@[i as int],
            ));
            assert(magic().subrange(0, i + 1) == magic().subrange(0, i as int).push(
                magic()[i as int],
            ));
            i += 1;
        }
        assert(magic().subrange(0, 7) == magic());
        if buffer.len() > 7 && buffer[7] != PROTOCOL_VERSION {
            return Err(
                IcmPongError::VersionMismatch { ours: PROTOCOL_VERSION, theirs: buffer[7] },
            );
        }
        if buffer.len() != FRAME_LENGTH {
            return Err(
                IcmPongError::InvalidPacketSize { expected: FRAME_LENGTH, found: buffer.len() },
            );
        }
        let session_id = get_u32(buffer, 8);
        let packet_type = match IcmPongPacketType::from_u8(buffer[12]) {
            Some(packet_type) => packet_type,
            None => {
                return Err(IcmPongError::UnknownPacketType(buffer[12]));
            },
        };
        let mut packet_data: [u8; 32] = [0u8; 32];
        let mut j: usize = 0;
        while j < 32
            invariant
                j <= 32,
                buffer@.len() == 45,
                packet_data@.subrange(0, j as int) == buffer@.subrange(13, 13 + j),
            decreases 32 - j,
        {
            packet_data[j] = buffer[13 + j];
            assert(packet_data@.subrange(0, j + 1) == buffer@.subrange(13, 13 + j + 1));
            j += 1;
        }
        assert(packet_data@.subrange(0, 32) == packet_data@);
        Ok(Frame { session_id, packet: IcmPongPacket { version: buffer[7], packet_type, packet_data } })
    }
}

/// Decoding what was encoded gives the frame again, whatever its session,
/// type and payload.
pub proof fn lemma_decode_encode(frame: FrameView)
    requires
        frame.valid(),
    ensures
        frame.bytes().len() == 45,
        decoded(frame.bytes()) == Ok::<FrameView, IcmPongError>(frame),
{
    let bytes = frame.bytes();
    assert(bytes.subrange(0, 7) == magic());
    assert(bytes.subrange(8, 12) == u32_bytes(frame.session_id));
    assert(bytes.subrange(13, 45) == frame.packet.data);
    crate::wire::lemma_u32_round_trip(frame.session_id);
    lemma_ordinals(frame.packet.packet_type, 0);
}

/// A buffer decodes to a frame exactly when it has 45 bytes, opens with the
/// marker, carries this implementation's version and a packet type from 0 to
/// 6. Otherwise decoding fails, and the error names the first check that the
/// buffer does not pass.
pub proof fn lemma_decode_rejects(buffer: Seq<u8>)
    ensures
        decoded(buffer) is Ok <==> buffer.len() == 45 && has_magic(buffer) && buffer[7]
            == PROTOCOL_VERSION && buffer[12] <= 6,
        !has_magic(buffer) ==> decoded(buffer) == Err::<FrameView, IcmPongError>(
            IcmPongError::MissingMagic,
        ),
        has_magic(buffer) && buffer.len() > 7 && buffer[7] != PROTOCOL_VERSION ==> decoded(buffer)
            == Err::<FrameView, IcmPongError>(
            IcmPongError::VersionMismatch { ours: PROTOCOL_VERSION, theirs: buffer[7] },
        ),
        has_magic(buffer) && buffer.len() != 45 && (buffer.len() == 7 || buffer[7]
            == PROTOCOL_VERSION) ==> decoded(buffer) == Err::<FrameView, IcmPongError>(
            IcmPongError::InvalidPacketSize {
                expected: FRAME_LENGTH,
                found: buffer.len() as usize,
            },
        ),
        has_magic(buffer) && buffer.len() == 45 && buffer[7] == PROTOCOL_VERSION && buffer[12] > 6
            ==> decoded(buffer) == Err::<FrameView, IcmPongError>(
            IcmPongError::UnknownPacketType(buffer[12]),
        ),
{
    lemma_ordinals(IcmPongPacketType::Ping, buffer[12]);
}

} // verus!
