use icmpong::authority::{is_host, peer_player, Player};
use icmpong::binary32::Binary32;
use icmpong::packet::{Frame, IcmPongError, IcmPongPacket, IcmPongPacketType};
use icmpong::payload::{ball_payload, paddle_payload, ready_payload, score_payload, PlayerName};
use icmpong::session::{Discard, Dispatch, Session};
use icmpong::tui::GameObject;

fn wire(session_id: u32, packet: IcmPongPacket) -> Vec<u8> {
    Frame { session_id, packet }.encode()
}

fn bare(packet_type: IcmPongPacketType) -> IcmPongPacket {
    IcmPongPacket::new(packet_type, &[0; 32])
}

fn name(text: &str) -> PlayerName {
    PlayerName::new(text).unwrap()
}

fn reply_of(outcome: Dispatch) -> IcmPongPacket {
    match outcome {
        Dispatch::Accepted { reply: Some(packet) } => packet,
        other => panic!("no reply: {:?}", other),
    }
}

fn established(own: u32, peer: u32) -> Session {
    let mut session = Session::new(own);
    let ready = IcmPongPacket::new(IcmPongPacketType::Ready, &ready_payload(&name("peer")));
    reply_of(session.dispatch(&name("me"), &wire(peer, ready)));
    session
}

#[derive(Debug, PartialEq)]
struct Snapshot {
    session_id: u32,
    peer_session_id: Option<u32>,
    peer_ready_to_start: bool,
    stop: bool,
    peer_name: Option<Vec<u8>>,
    score: (u32, u32),
    ball: GameObject,
    player1: GameObject,
    player2: GameObject,
}

fn snapshot(session: &Session) -> Snapshot {
    Snapshot {
        session_id: session.session_id,
        peer_session_id: session.peer_session_id,
        peer_ready_to_start: session.peer_ready_to_start,
        stop: session.stop,
        peer_name: session.peer_name.as_ref().map(|name| name.as_bytes().to_vec()),
        score: session.score,
        ball: session.ball,
        player1: session.player1,
        player2: session.player2,
    }
}

#[test]
fn a_new_session_knows_nobody() {
    let session = Session::new(7);
    assert_eq!(
        snapshot(&session),
        Snapshot {
            session_id: 7,
            peer_session_id: None,
            peer_ready_to_start: false,
            stop: false,
            peer_name: None,
            score: (0, 0),
            ball: GameObject::new(39, 12, 1, b'O'),
            player1: GameObject::new(3, 11, 4, b'X'),
            player2: GameObject::new(75, 11, 4, b'X'),
        }
    );
    assert!(!session.established());
    assert_eq!(session.self_is_host(), None);
}

#[test]
fn ping_is_answered_with_ready_in_every_state() {
    let mut fresh = Session::new(100);
    let before = snapshot(&fresh);
    let reply = reply_of(fresh.dispatch(&name("ada"), &wire(200, bare(IcmPongPacketType::Ping))));
    assert_eq!(reply, IcmPongPacket::new(IcmPongPacketType::Ready, &ready_payload(&name("ada"))));
    assert_eq!(snapshot(&fresh), before);

    let mut running = established(100, 200);
    let before = snapshot(&running);
    let reply = reply_of(running.dispatch(&name(""), &wire(200, bare(IcmPongPacketType::Ping))));
    assert_eq!(reply, IcmPongPacket::new(IcmPongPacketType::Ready, &[0; 32]));
    assert_eq!(snapshot(&running), before);
}

#[test]
fn the_first_ready_establishes_the_session() {
    let mut session = Session::new(100);
    let ready = IcmPongPacket::new(IcmPongPacketType::Ready, &ready_payload(&name("bob")));
    let reply = reply_of(session.dispatch(&name("ada"), &wire(200, ready)));
    assert_eq!(reply, IcmPongPacket::new(IcmPongPacketType::Ready, &ready_payload(&name("ada"))));
    assert!(session.established());
    assert_eq!(session.peer_session_id, Some(200));
    assert_eq!(session.peer_name.as_ref().unwrap().as_bytes(), "bob".as_bytes());
    assert_eq!(session.self_is_host(), Some(false));
}

#[test]
fn a_ready_without_a_name_leaves_the_peer_nameless() {
    let mut session = Session::new(100);
    reply_of(session.dispatch(&name("ada"), &wire(200, bare(IcmPongPacketType::Ready))));
    assert_eq!(session.peer_session_id, Some(200));
    assert!(session.peer_name.is_none());
}

#[test]
fn a_second_ready_is_ignored() {
    let mut session = established(100, 200);
    let before = snapshot(&session);
    let ready = IcmPongPacket::new(IcmPongPacketType::Ready, &ready_payload(&name("eve")));
    let outcome = session.dispatch(&name("me"), &wire(300, ready));
    assert!(matches!(outcome, Dispatch::Ignored(Discard::DuplicateReady)));
    assert_eq!(snapshot(&session), before);
}

#[test]
fn ping_then_ready_converges() {
    let (ada, bob) = (name("ada"), name("bob"));
    let mut a = Session::new(100);
    let mut b = Session::new(200);
    let ready_b = reply_of(b.dispatch(&bob, &wire(100, bare(IcmPongPacketType::Ping))));
    let ready_a = reply_of(a.dispatch(&ada, &wire(200, ready_b)));
    let echo_b = reply_of(b.dispatch(&bob, &wire(100, ready_a)));
    let last = a.dispatch(&ada, &wire(200, echo_b));
    assert!(matches!(last, Dispatch::Ignored(Discard::DuplicateReady)));
    assert_eq!(a.peer_session_id, Some(200));
    assert_eq!(b.peer_session_id, Some(100));
    assert_eq!(a.peer_name.as_ref().unwrap().as_bytes(), "bob".as_bytes());
    assert_eq!(b.peer_name.as_ref().unwrap().as_bytes(), "ada".as_bytes());
    assert_eq!(a.self_is_host(), Some(false));
    assert_eq!(b.self_is_host(), Some(true));
}

#[test]
fn two_pings_at_once_converge() {
    let (ada, bob) = (name("ada"), name("bob"));
    let mut a = Session::new(100);
    let mut b = Session::new(200);
    let ready_a = reply_of(a.dispatch(&ada, &wire(200, bare(IcmPongPacketType::Ping))));
    let ready_b = reply_of(b.dispatch(&bob, &wire(100, bare(IcmPongPacketType::Ping))));
    let echo_a = reply_of(a.dispatch(&ada, &wire(200, ready_b)));
    let echo_b = reply_of(b.dispatch(&bob, &wire(100, ready_a)));
    assert!(matches!(
        a.dispatch(&ada, &wire(200, echo_b)),
        Dispatch::Ignored(Discard::DuplicateReady)
    ));
    assert!(matches!(
        b.dispatch(&bob, &wire(100, echo_a)),
        Dispatch::Ignored(Discard::DuplicateReady)
    ));
    assert_eq!(a.peer_session_id, Some(200));
    assert_eq!(b.peer_session_id, Some(100));
}

#[test]
fn own_frames_are_discarded_whatever_their_type() {
    let types = [
        IcmPongPacketType::Ping,
        IcmPongPacketType::Ready,
        IcmPongPacketType::Start,
        IcmPongPacketType::PaddlePosition,
        IcmPongPacketType::BallUpdate,
        IcmPongPacketType::ScoreUpdate,
        IcmPongPacketType::Disconnect,
    ];
    for packet_type in types {
        for mut session in [Session::new(100), established(100, 200)] {
            let before = snapshot(&session);
            let outcome = session.dispatch(&name("me"), &wire(100, IcmPongPacket::new(packet_type, &[9; 32])));
            assert!(matches!(outcome, Dispatch::Ignored(Discard::SelfEcho)));
            assert_eq!(snapshot(&session), before);
        }
    }
}

#[test]
fn other_traffic_is_passed_over() {
    let mut session = established(100, 200);
    let before = snapshot(&session);
    for payload in [&b""[..], &b"abcdefgh"[..], &[0u8; 45][..], &b"ICMPonG"[..]] {
        let outcome = session.dispatch(&name("me"), payload);
        assert!(matches!(outcome, Dispatch::Ignored(Discard::NotAFrame)));
    }
    assert_eq!(snapshot(&session), before);
}

#[test]
fn another_version_ends_the_session() {
    let mut session = established(100, 200);
    let mut bytes = wire(200, bare(IcmPongPacketType::Start));
    bytes[7] = 1;
    let outcome = session.dispatch(&name("me"), &bytes);
    assert!(matches!(
        outcome,
        Dispatch::Failed(IcmPongError::VersionMismatch { ours: 0, theirs: 1 })
    ));
    assert!(session.stop);
    assert!(!session.peer_ready_to_start);
}

#[test]
fn a_wrong_length_ends_the_session() {
    let mut session = Session::new(100);
    let mut bytes = wire(200, bare(IcmPongPacketType::Ping));
    bytes.pop();
    let outcome = session.dispatch(&name("me"), &bytes);
    assert!(matches!(
        outcome,
        Dispatch::Failed(IcmPongError::InvalidPacketSize { expected: 45, found: 44 })
    ));
    assert!(session.stop);
}

#[test]
fn an_unknown_type_ends_the_session_even_from_oneself() {
    let mut session = Session::new(100);
    let mut bytes = wire(100, bare(IcmPongPacketType::Ping));
    bytes[12] = 9;
    let outcome = session.dispatch(&name("me"), &bytes);
    assert!(matches!(outcome, Dispatch::Failed(IcmPongError::UnknownPacketType(9))));
    assert!(session.stop);
}

#[test]
fn disconnect_is_acknowledged_and_stops_the_session() {
    for mut session in [Session::new(100), established(100, 200)] {
        let mut expected = snapshot(&session);
        expected.stop = true;
        match session.dispatch(&name("me"), &wire(200, bare(IcmPongPacketType::Disconnect))) {
            Dispatch::Disconnected { acknowledgment } => {
                assert_eq!(acknowledgment, bare(IcmPongPacketType::Disconnect));
            }
            other => panic!("{:?}", other),
        }
        assert_eq!(snapshot(&session), expected);
    }
}

#[test]
fn a_stopped_session_takes_nothing() {
    let mut session = established(100, 200);
    session.transport_failed();
    assert!(session.stop);
    let before = snapshot(&session);
    for packet_type in [IcmPongPacketType::Ping, IcmPongPacketType::Start, IcmPongPacketType::Disconnect] {
        let outcome = session.dispatch(&name("me"), &wire(200, bare(packet_type)));
        assert!(matches!(outcome, Dispatch::Ignored(Discard::Stopped)));
    }
    assert!(matches!(session.dispatch(&name("me"), &[1, 2, 3]), Dispatch::Ignored(Discard::Stopped)));
    assert_eq!(snapshot(&session), before);
}

#[test]
fn game_frames_wait_for_the_handshake() {
    let mut session = Session::new(100);
    let before = snapshot(&session);
    let packets = [
        bare(IcmPongPacketType::Start),
        IcmPongPacket::new(IcmPongPacketType::PaddlePosition, &paddle_payload(9, 9)),
        IcmPongPacket::new(IcmPongPacketType::BallUpdate, &ball_payload(&GameObject::new(1, 2, 1, b'O'))),
        IcmPongPacket::new(IcmPongPacketType::ScoreUpdate, &score_payload(4, 5)),
    ];
    for packet in packets {
        let outcome = session.dispatch(&name("me"), &wire(200, packet));
        assert!(matches!(outcome, Dispatch::Ignored(Discard::NotEstablished)));
    }
    assert_eq!(snapshot(&session), before);
}

#[test]
fn start_marks_the_peer_ready() {
    let mut session = established(100, 200);
    let mut expected = snapshot(&session);
    expected.peer_ready_to_start = true;
    let outcome = session.dispatch(&name("me"), &wire(200, bare(IcmPongPacketType::Start)));
    assert!(matches!(outcome, Dispatch::Accepted { reply: None }));
    assert_eq!(snapshot(&session), expected);
}

#[test]
fn paddle_position_moves_the_peers_paddle_only() {
    let packet = IcmPongPacket::new(IcmPongPacketType::PaddlePosition, &paddle_payload(75, 5));

    let mut host = established(200, 100);
    let mut expected = snapshot(&host);
    expected.player2.x_position = 75;
    expected.player2.y_position = 5;
    assert!(matches!(host.dispatch(&name("me"), &wire(100, packet)), Dispatch::Accepted { reply: None }));
    assert_eq!(snapshot(&host), expected);
    assert_eq!(host.player2.y_subpixel, Binary32::from_u16(11));

    let mut guest = established(100, 200);
    let mut expected = snapshot(&guest);
    expected.player1.x_position = 75;
    expected.player1.y_position = 5;
    assert!(matches!(guest.dispatch(&name("me"), &wire(200, packet)), Dispatch::Accepted { reply: None }));
    assert_eq!(snapshot(&guest), expected);
}

#[test]
fn score_update_replaces_both_counters() {
    let mut session = established(100, 200);
    session.score = (9, 9);
    let mut expected = snapshot(&session);
    expected.score = (2, 7);
    let packet = IcmPongPacket::new(IcmPongPacketType::ScoreUpdate, &score_payload(2, 7));
    assert!(matches!(session.dispatch(&name("me"), &wire(200, packet)), Dispatch::Accepted { reply: None }));
    assert_eq!(snapshot(&session), expected);
}

#[test]
fn the_last_update_received_wins() {
    let mut session = established(100, 200);
    for (left, right) in [(3, 1), (2, 1)] {
        let packet = IcmPongPacket::new(IcmPongPacketType::ScoreUpdate, &score_payload(left, right));
        session.dispatch(&name("me"), &wire(200, packet));
    }
    assert_eq!(session.score, (2, 1));
}

#[test]
fn sessions_100_and_200_share_the_hosts_ball() {
    let (ada, bob) = (name("ada"), name("bob"));
    let mut a = Session::new(100);
    let mut b = Session::new(200);
    let ready_b = reply_of(b.dispatch(&bob, &wire(100, bare(IcmPongPacketType::Ping))));
    let ready_a = reply_of(a.dispatch(&ada, &wire(200, ready_b)));
    reply_of(b.dispatch(&bob, &wire(100, ready_a)));
    assert_eq!(b.self_is_host(), Some(true));
    assert_eq!(a.self_is_host(), Some(false));

    b.ball.x_position = 40;
    b.ball.y_position = 12;
    b.ball.x_movement = Binary32::from_bits(0.6f32.to_bits());
    b.ball.y_movement = Binary32::from_bits(0.0f32.to_bits());
    b.ball.x_subpixel = Binary32::from_bits(40.0f32.to_bits());
    b.ball.y_subpixel = Binary32::from_bits(12.0f32.to_bits());
    let update = IcmPongPacket::new(IcmPongPacketType::BallUpdate, &ball_payload(&b.ball));

    let mut expected = snapshot(&a);
    expected.ball = b.ball;
    let outcome = a.dispatch(&ada, &wire(200, update));
    assert!(matches!(outcome, Dispatch::Accepted { reply: None }));
    assert_eq!(snapshot(&a), expected);
    assert_eq!(a.ball.x_position, 40);
    assert_eq!(a.ball.y_position, 12);
    assert_eq!(f32::from_bits(a.ball.x_movement.to_bits()), 0.6);
    assert_eq!(f32::from_bits(a.ball.y_movement.to_bits()), 0.0);
    assert_eq!(f32::from_bits(a.ball.x_subpixel.to_bits()), 40.0);
    assert_eq!(f32::from_bits(a.ball.y_subpixel.to_bits()), 12.0);
}

#[test]
fn the_greater_session_id_is_the_host() {
    assert!(is_host(200, 100));
    assert!(!is_host(100, 200));
    assert!(!is_host(5, 5));
    assert_eq!(peer_player(200, 100), Player::Right);
    assert_eq!(peer_player(100, 200), Player::Left);
    for (a, b) in [(0u32, 1u32), (1, 0), (7, u32::MAX), (u32::MAX, 0), (41, 42)] {
        assert_eq!(is_host(a, b), !is_host(b, a));
        assert_ne!(peer_player(a, b), peer_player(b, a));
    }
}
