//! The state that the two loops of a session share, and what an inbound
//! packet does to it.
//!
//! A session starts unestablished. The first `Ready` of the peer establishes
//! it, once. A `Disconnect` or a fatal error stops it, for good.

use crate::authority::{host_of, is_host, peer_player, peer_side, Player};
use crate::packet::{
    decoded, Frame, FrameView, IcmPongError, IcmPongPacket, IcmPongPacketType, PacketView,
    PROTOCOL_VERSION,
};
use crate::payload::{
    ball_updated, blank, paddle_position, parse_ball, parse_paddle, parse_ready, parse_score,
    ready_bytes, ready_name, ready_payload, score_pair, PlayerName,
};
use crate::tui::{GameObject, X_MAXIMUM, X_MINIMUM, Y_MAXIMUM, Y_MINIMUM};
use vstd::prelude::*;

verus! {

/// The ball: `O`.
pub const PIXEL_BALL: u8 = 79;

/// A paddle: `X`.
pub const PIXEL_PADDLE: u8 = 88;

/// The rows that a paddle covers.
pub const PADDLE_SIZE: u16 = 4;

/// The ball at rest in the centre of the field.
pub open spec fn ball_at_centre() -> GameObject {
    GameObject::at_rest(39, 12, 1, PIXEL_BALL)
}

/// The left paddle where it starts.
pub open spec fn left_paddle_at_start() -> GameObject {
    GameObject::at_rest(3, 11, PADDLE_SIZE, PIXEL_PADDLE)
}

/// The right paddle where it starts.
pub open spec fn right_paddle_at_start() -> GameObject {
    GameObject::at_rest(75, 11, PADDLE_SIZE, PIXEL_PADDLE)
}

/// Why an inbound packet was passed over.
#[derive(Debug, Clone, Copy, PartialEq, Eq, Structural)]
pub enum Discard {
    /// The session has stopped.
    Stopped,
    /// The packet does not open with the marker: other traffic.
    NotAFrame,
    /// The frame carries this side's own session id: its own echo.
    SelfEcho,
    /// A `Ready` after the peer is known.
    DuplicateReady,
    /// A frame that means something only once the peer is known.
    NotEstablished,
}

/// What the dispatch loop has to do after a packet.
#[derive(Debug)]
pub enum Dispatch {
    /// Nothing: the state is as it was.
    Ignored(Discard),
    /// The state has taken the frame in. Where there is a reply, send it.
    Accepted { reply: Option<IcmPongPacket> },
    /// The peer has left and the session has stopped. Send the
    /// acknowledgment if the socket still takes it, then end.
    Disconnected { acknowledgment: IcmPongPacket },
    /// The session has stopped over a fatal error. Report it, then end.
    Failed(IcmPongError),
}

/// A `Dispatch` as plain values.
pub enum DispatchView {
    Ignored(Discard),
    Accepted { reply: Option<PacketView> },
    Disconnected { acknowledgment: PacketView },
    Failed(IcmPongError),
}

impl View for Dispatch {
    type V = DispatchView;

    open spec fn view(&self) -> DispatchView {
        match *self {
            Dispatch::Ignored(discard) => DispatchView::Ignored(discard),
            Dispatch::Accepted { reply: Some(packet) } => DispatchView::Accepted {
                reply: Some(packet@),
            },
            Dispatch::Accepted { reply: None } => DispatchView::Accepted { reply: None },
            Dispatch::Disconnected { acknowledgment } => DispatchView::Disconnected {
                acknowledgment: acknowledgment@,
            },
            Dispatch::Failed(error) => DispatchView::Failed(error),
        }
    }
}

/// The state of a session.
#[derive(Debug)]
pub struct Session {
    /// This side's session id.
    pub session_id: u32,
    /// The peer's session id, once its first `Ready` has come.
    pub peer_session_id: Option<u32>,
    /// Whether the peer has asked to start.
    pub peer_ready_to_start: bool,
    /// Whether the session is over.
    pub stop: bool,
    /// The name that the peer gave, if it gave one.
    pub peer_name: Option<PlayerName>,
    /// The points of the left and of the right player.
    pub score: (u32, u32),
    pub ball: GameObject,
    /// The left paddle: the host's.
    pub player1: GameObject,
    /// The right paddle.
    pub player2: GameObject,
}

/// A `Session` as plain values.
pub struct SessionView {
    pub session_id: u32,
    pub peer_session_id: Option<u32>,
    pub peer_ready_to_start: bool,
    pub stop: bool,
    pub peer_name: Option<Seq<u8>>,
    pub score: (u32, u32),
    pub ball: GameObject,
    pub player1: GameObject,
    pub player2: GameObject,
}

impl View for Session {
    type V = SessionView;

    open spec fn view(&self) -> SessionView {
        SessionView {
            session_id: self.session_id,
            peer_session_id: self.peer_session_id,
            peer_ready_to_start: self.peer_ready_to_start,
            stop: self.stop,
            peer_name: match self.peer_name {
                Some(name) => Some(name@),
                None => None,
            },
            score: self.score,
            ball: self.ball,
            player1: self.player1,
            player2: self.player2,
        }
    }
}

/// A packet of this implementation's version with an empty payload.
pub open spec fn bare_packet(packet_type: IcmPongPacketType) -> PacketView {
    PacketView { version: PROTOCOL_VERSION, packet_type, data: blank() }
}

/// The `Ready` that a player of this name sends.
pub open spec fn ready_packet(name: Seq<u8>) -> PacketView {
    PacketView {
        version: PROTOCOL_VERSION,
        packet_type: IcmPongPacketType::Ready,
        data: ready_bytes(name),
    }
}

impl SessionView {
    /// A session before its first packet.
    pub open spec fn fresh(session_id: u32) -> SessionView {
        SessionView {
            session_id,
            peer_session_id: None,
            peer_ready_to_start: false,
            stop: false,
            peer_name: None,
            score: (0, 0),
            ball: ball_at_centre(),
            player1: left_paddle_at_start(),
            player2: right_paddle_at_start(),
        }
    }

    /// Whether the peer is known.
    pub open spec fn established(self) -> bool {
        self.peer_session_id is Some
    }

    /// Whether this side is the host. Meaningful once the peer is known.
    pub open spec fn host(self) -> bool {
        self.peer_session_id matches Some(peer) && host_of(self.session_id, peer)
    }

    /// The session with the peer's paddle moved to `position`. The host's
    /// peer plays on the right, the other side's on the left.
    pub open spec fn with_peer_paddle(self, position: (u16, u16)) -> SessionView {
        if self.host() {
            SessionView {
                player2: GameObject {
                    x_position: position.0,
                    y_position: position.1,
                    ..self.player2
                },
                ..self
            }
        } else {
            SessionView {
                player1: GameObject {
                    x_position: position.0,
                    y_position: position.1,
                    ..self.player1
                },
                ..self
            }
        }
    }

    /// What a frame of the peer does to a running session, and what the
    /// dispatch loop has to do then. `name` is this side's own.
    pub open spec fn taken_in(self, name: Seq<u8>, frame: FrameView) -> (SessionView, DispatchView) {
        match frame.packet.packet_type {
            IcmPongPacketType::Disconnect => (
                SessionView { stop: true, ..self },
                DispatchView::Disconnected {
                    acknowledgment: bare_packet(IcmPongPacketType::Disconnect),
                },
            ),
            IcmPongPacketType::Ping => (
                self,
                DispatchView::Accepted { reply: Some(ready_packet(name)) },
            ),
            IcmPongPacketType::Ready => if self.established() {
                (self, DispatchView::Ignored(Discard::DuplicateReady))
            } else {
                (
                    SessionView {
                        peer_session_id: Some(frame.session_id),
                        peer_name: ready_name(frame.packet.data),
                        ..self
                    },
                    DispatchView::Accepted { reply: Some(ready_packet(name)) },
                )
            },
            _ => if !self.established() {
                (self, DispatchView::Ignored(Discard::NotEstablished))
            } else {
                (
                    match frame.packet.packet_type {
                        IcmPongPacketType::Start => SessionView {
                            peer_ready_to_start: true,
                            ..self
                        },
                        IcmPongPacketType::PaddlePosition => self.with_peer_paddle(
                            paddle_position(frame.packet.data),
                        ),
                        IcmPongPacketType::BallUpdate => SessionView {
                            ball: ball_updated(self.ball, frame.packet.data),
                            ..self
                        },
                        _ => SessionView { score: score_pair(frame.packet.data), ..self },
                    },
                    DispatchView::Accepted { reply: None },
                )
            },
        }
    }

    /// What the payload of an inbound packet does to the session, and what
    /// the dispatch loop has to do then. `name` is this side's own.
    pub open spec fn dispatched(self, name: Seq<u8>, payload: Seq<u8>) -> (
        SessionView,
        DispatchView,
    ) {
        if self.stop {
            (self, DispatchView::Ignored(Discard::Stopped))
        } else {
            match decoded(payload) {
                Err(IcmPongError::MissingMagic) => (
                    self,
                    DispatchView::Ignored(Discard::NotAFrame),
                ),
                Err(error) => (SessionView { stop: true, ..self }, DispatchView::Failed(error)),
                Ok(frame) => if frame.session_id == self.session_id {
                    (self, DispatchView::Ignored(Discard::SelfEcho))
                } else {
                    self.taken_in(name, frame)
                },
            }
        }
    }
}

impl Session {
    /// A session before its first packet: no peer, nobody ready, no points,
    /// the ball in the centre and the paddles in the middle of their sides.
    pub fn new(session_id: u32) -> (session: Self)
        ensures
            session@ == SessionView::fresh(session_id),
    {
        Session {
            session_id,
            peer_session_id: None,
            peer_ready_to_start: false,
            stop: false,
            peer_name: None,
            score: (0, 0),
            ball: GameObject::new(X_MAXIMUM / 2, Y_MAXIMUM / 2, 1, PIXEL_BALL),
            player1: GameObject::new(
                X_MINIMUM + 3,
                (Y_MAXIMUM - Y_MINIMUM) / 2 - 1,
                PADDLE_SIZE,
                PIXEL_PADDLE,
            ),
            player2: GameObject::new(
                X_MAXIMUM - 4,
                (Y_MAXIMUM - Y_MINIMUM) / 2 - 1,
                PADDLE_SIZE,
                PIXEL_PADDLE,
            ),
        }
    }

    /// Whether the peer is known.
    pub fn established(&self) -> (known: bool)
        ensures
            known == self@.established(),
    {
        self.peer_session_id.is_some()
    }

    /// Whether this side is the host; `None` as long as the peer is unknown.
    pub fn self_is_host(&self) -> (host: Option<bool>)
        ensures
            host == match self.peer_session_id {
                Some(peer) => Some(host_of(self.session_id, peer)),
                None => None,
            },
    {
        match self.peer_session_id {
            Some(peer) => Some(is_host(self.session_id, peer)),
            None => None,
        }
    }

    /// The socket has failed: the session is over.
    pub fn transport_failed(&mut self)
        ensures
            final(self)@ == (SessionView { stop: true, ..old(self)@ }),
    {
        self.stop = true;
    }

    /// Takes the payload of one inbound packet of the peer. `name` is the
    /// name that this side gives in its `Ready`.
    pub fn dispatch(&mut self, name: &PlayerName, payload: &[u8]) -> (outcome: Dispatch)
        ensures
            (final(self)@, outcome@) == old(self)@.dispatched(name@, payload@),
    {
        if self.stop {
            return Dispatch::Ignored(Discard::Stopped);
        }
        let frame = match Frame::decode(payload) {
            Ok(frame) => frame,
            Err(IcmPongError::MissingMagic) => {
                return Dispatch::Ignored(Discard::NotAFrame);
            },
            Err(error) => {
                self.stop = true;
                return Dispatch::Failed(error);
            },
        };
        if frame.session_id == self.session_id {
            return Dispatch::Ignored(Discard::SelfEcho);
        }
        let data = &frame.packet.packet_data;
        match frame.packet.packet_type {
            IcmPongPacketType::Disconnect => {
                self.stop = true;
                let nothing: [u8; 32] = [0u8; 32];
                assert(nothing@ =~= blank());
                Dispatch::Disconnected {
                    acknowledgment: IcmPongPacket::new(IcmPongPacketType::Disconnect, &nothing),
                }
            },
            IcmPongPacketType::Ping => Dispatch::Accepted {
                reply: Some(IcmPongPacket::new(IcmPongPacketType::Ready, &ready_payload(name))),
            },
            IcmPongPacketType::Ready => {
                if self.peer_session_id.is_some() {
                    return Dispatch::Ignored(Discard::DuplicateReady);
                }
                self.peer_session_id = Some(frame.session_id);
                self.peer_name = parse_ready(data);
                Dispatch::Accepted {
                    reply: Some(IcmPongPacket::new(IcmPongPacketType::Ready, &ready_payload(name))),
                }
            },
            packet_type => {
                let peer = match self.peer_session_id {
                    Some(peer) => peer,
                    None => {
                        return Dispatch::Ignored(Discard::NotEstablished);
                    },
                };
                match packet_type {
                    IcmPongPacketType::Start => {
                        self.peer_ready_to_start = true;
                    },
                    IcmPongPacketType::PaddlePosition => {
                        let (x, y) = parse_paddle(data);
                        match peer_player(self.session_id, peer) {
                            Player::Right => {
                                self.player2.x_position = x;
                                self.player2.y_position = y;
                            },
                            Player::Left => {
                                self.player1.x_position = x;
                                self.player1.y_position = y;
                            },
                        }
                    },
                    IcmPongPacketType::BallUpdate => {
                        self.ball = parse_ball(&self.ball, data);
                    },
                    _ => {
                        self.score = parse_score(data);
                    },
                }
                Dispatch::Accepted { reply: None }
            },
        }
    }
}

/// A frame that carries the receiver's own session id is passed over and
/// changes nothing, whatever its type and payload.
pub proof fn lemma_own_echo_is_discarded(session: SessionView, name: Seq<u8>, frame: FrameView)
    requires
        frame.valid(),
        frame.session_id == session.session_id,
    ensures
        session.dispatched(name, frame.bytes()).0 == session,
        session.dispatched(name, frame.bytes()).1 is Ignored,
        !session.stop ==> session.dispatched(name, frame.bytes()).1 == DispatchView::Ignored(
            Discard::SelfEcho,
        ),
{
    crate::packet::lemma_decode_encode(frame);
}

/// A running session takes in every well-formed frame of another session:
/// what happens then depends on the frame alone, not on the bytes around it.
pub proof fn lemma_frames_are_taken_in(session: SessionView, name: Seq<u8>, frame: FrameView)
    requires
        frame.valid(),
        !session.stop,
        frame.session_id != session.session_id,
    ensures
        session.dispatched(name, frame.bytes()) == session.taken_in(name, frame),
{
    crate::packet::lemma_decode_encode(frame);
}

/// A stopped session stays as it is, whatever comes.
pub proof fn lemma_stopped_is_final(session: SessionView, name: Seq<u8>, payload: Seq<u8>)
    requires
        session.stop,
    ensures
        session.dispatched(name, payload) == (session, DispatchView::Ignored(Discard::Stopped)),
{
}

/// No packet gives a stopped session its life back, and none makes a known
/// peer unknown or another: the peer is recorded once.
pub proof fn lemma_session_moves_forward(session: SessionView, name: Seq<u8>, payload: Seq<u8>)
    ensures
        session.stop ==> session.dispatched(name, payload).0.stop,
        session.established() ==> session.dispatched(name, payload).0.peer_session_id
            == session.peer_session_id && session.dispatched(name, payload).0.peer_name
            == session.peer_name,
        session.dispatched(name, payload).0.session_id == session.session_id,
{
}

/// A session never takes itself for its peer: the two ids of an established
/// session differ, so that exactly one side is the host.
pub proof fn lemma_peer_is_another(session: SessionView, name: Seq<u8>, payload: Seq<u8>)
    requires
        session.peer_session_id != Some(session.session_id),
    ensures
        session.dispatched(name, payload).0.peer_session_id != Some(session.session_id),
{
}

/// The first `Ready` of another session establishes a fresh one: the sender
/// is the peer, the name is the one it gave, and a `Ready` goes back.
pub proof fn lemma_ready_establishes(
    session: SessionView,
    name: Seq<u8>,
    sender: u32,
    sender_name: Seq<u8>,
)
    requires
        !session.stop,
        !session.established(),
        sender != session.session_id,
        sender_name.len() <= 31,
    ensures
        session.dispatched(
            name,
            (FrameView { session_id: sender, packet: ready_packet(sender_name) }).bytes(),
        ) == (
            SessionView {
                peer_session_id: Some(sender),
                peer_name: if sender_name.len() == 0 {
                    None
                } else {
                    Some(sender_name)
                },
                ..session
            },
            DispatchView::Accepted { reply: Some(ready_packet(name)) },
        ),
{
    let frame = FrameView { session_id: sender, packet: ready_packet(sender_name) };
    crate::payload::lemma_ready_round_trip(sender_name);
    crate::packet::lemma_decode_encode(frame);
}

/// An established session that takes in the `BallUpdate` of its peer has the
/// sender's ball, bit for bit: position, velocity and sub-pixel position.
/// Nothing else changes, and nothing is sent back.
pub proof fn lemma_ball_update_is_taken_over(
    session: SessionView,
    name: Seq<u8>,
    sender: u32,
    ball: GameObject,
)
    requires
        !session.stop,
        session.established(),
        sender != session.session_id,
    ensures
        session.dispatched(
            name,
            (FrameView {
                session_id: sender,
                packet: PacketView {
                    version: PROTOCOL_VERSION,
                    packet_type: IcmPongPacketType::BallUpdate,
                    data: crate::payload::ball_bytes(ball),
                },
            }).bytes(),
        ) == (
            SessionView {
                ball: GameObject { size: session.ball.size, pixel: session.ball.pixel, ..ball },
                ..session
            },
            DispatchView::Accepted { reply: None },
        ),
{
    let frame = FrameView {
        session_id: sender,
        packet: PacketView {
            version: PROTOCOL_VERSION,
            packet_type: IcmPongPacketType::BallUpdate,
            data: crate::payload::ball_bytes(ball),
        },
    };
    crate::payload::lemma_ball_round_trip(ball, session.ball);
    crate::packet::lemma_decode_encode(frame);
}

} // verus!
