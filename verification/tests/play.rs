use icmpong::authority::Player;
use icmpong::binary32::Binary32;
use icmpong::game::{ball_update, bare, touching, GameLoop, Input, Step, Tick};
use icmpong::packet::{IcmPongPacket, IcmPongPacketType};
use icmpong::payload::{ball_payload, paddle_payload, score_payload};
use icmpong::session::Session;
use icmpong::tui::GameObject;

fn number(value: f32) -> Binary32 {
    Binary32::from_bits(value.to_bits())
}

fn value(number: Binary32) -> f32 {
    f32::from_bits(number.to_bits())
}

fn running(host: bool) -> (GameLoop, Session) {
    let mut game = GameLoop::new(host);
    game.game_started = true;
    game.self_start_game = true;
    let mut session = if host { Session::new(200) } else { Session::new(100) };
    session.peer_session_id = Some(if host { 100 } else { 200 });
    session.peer_ready_to_start = true;
    (game, session)
}

fn throw(session: &mut Session, x: f32, y: f32, vx: f32, vy: f32) {
    session.ball.x_subpixel = number(x);
    session.ball.y_subpixel = number(y);
    session.ball.x_position = x as u16;
    session.ball.y_position = y as u16;
    session.ball.x_movement = number(vx);
    session.ball.y_movement = number(vy);
}

fn step_of(session: &Session) -> Step {
    let ball = &session.ball;
    Step {
        x_subpixel: number(value(ball.x_subpixel) + value(ball.x_movement)),
        y_subpixel: number(value(ball.y_subpixel) + value(ball.y_movement)),
        x_boosted: number(value(ball.x_movement) * 1.1),
        y_boosted: number(value(ball.y_movement) * 1.1),
    }
}

#[test]
fn a_new_game_has_not_started() {
    let game = GameLoop::new(true);
    assert_eq!(
        game,
        GameLoop {
            self_is_host: true,
            game_started: false,
            self_start_game: false,
            round_winner: None,
            tick_counter: 0,
            bounces: 0,
        }
    );
}

#[test]
fn nothing_moves_before_the_start() {
    let mut game = GameLoop::new(true);
    let mut session = Session::new(200);
    throw(&mut session, 39.0, 12.0, 0.6, 0.1);
    let before = session.ball;
    let step = step_of(&session);
    assert!(game.tick(&mut session, &step).is_empty());
    assert_eq!(session.ball, before);
    assert_eq!(game, GameLoop::new(true));
}

#[test]
fn a_tick_moves_the_ball_and_truncates() {
    let (mut game, mut session) = running(true);
    throw(&mut session, 39.0, 12.0, 0.6, 0.25);
    let step = step_of(&session);
    assert!(game.tick(&mut session, &step).is_empty());
    assert_eq!(value(session.ball.x_subpixel), 39.0f32 + 0.6f32);
    assert_eq!(value(session.ball.y_subpixel), 12.25);
    assert_eq!(session.ball.x_position, 39);
    assert_eq!(session.ball.y_position, 12);
    assert_eq!(value(session.ball.x_movement), 0.6);
    assert_eq!(value(session.ball.y_movement), 0.25);
    let step = step_of(&session);
    assert!(game.tick(&mut session, &step).is_empty());
    assert_eq!(session.ball.x_position, 40);
    assert_eq!(game.round_winner, None);
    assert_eq!(game.bounces, 0);
}

#[test]
fn the_bottom_wall_turns_the_ball_upward() {
    let (mut game, mut session) = running(true);
    throw(&mut session, 20.0, 22.8, 0.5, 0.4);
    let step = step_of(&session);
    let packets = game.tick(&mut session, &step);
    assert_eq!(session.ball.y_position, 23);
    assert_eq!(value(session.ball.y_movement), -0.4);
    assert_eq!(value(session.ball.x_movement), 0.5);
    assert_eq!(game.bounces, 1);
    assert_eq!(packets, vec![ball_update(&session.ball)]);
    assert_eq!(
        packets[0],
        IcmPongPacket::new(IcmPongPacketType::BallUpdate, &ball_payload(&session.ball))
    );
}

#[test]
fn the_top_wall_turns_the_ball_downward() {
    let (mut game, mut session) = running(true);
    throw(&mut session, 20.0, 1.2, 0.5, -0.4);
    let step = step_of(&session);
    let packets = game.tick(&mut session, &step);
    assert_eq!(session.ball.y_position, 0);
    assert_eq!(value(session.ball.y_movement), 0.4);
    assert_eq!(value(session.ball.x_movement), 0.5);
    assert_eq!(packets.len(), 1);
}

#[test]
fn the_fifth_bounce_accelerates_a_slow_ball() {
    let (mut game, mut session) = running(true);
    game.bounces = 4;
    throw(&mut session, 20.0, 22.8, 0.5, 0.4);
    let step = step_of(&session);
    let packets = game.tick(&mut session, &step);
    assert_eq!(game.bounces, 0);
    assert_eq!(value(session.ball.x_movement), 0.5f32 * 1.1);
    assert_eq!(value(session.ball.y_movement), -0.4f32 * 1.1);
    assert_eq!(value(session.ball.y_movement), (0.4f32 * -1.0) * 1.1);
    assert_eq!(packets, vec![ball_update(&session.ball)]);
}

#[test]
fn the_fifth_bounce_leaves_a_steep_ball_alone() {
    let (mut game, mut session) = running(true);
    game.bounces = 4;
    throw(&mut session, 20.0, 22.0, 0.5, 1.5);
    let step = step_of(&session);
    game.tick(&mut session, &step);
    assert_eq!(game.bounces, 0);
    assert_eq!(value(session.ball.x_movement), 0.5);
    assert_eq!(value(session.ball.y_movement), -1.5);
}

#[test]
fn bounces_are_counted_up_to_five() {
    let (mut game, mut session) = running(true);
    let mut seen = Vec::new();
    for _ in 0..7 {
        throw(&mut session, 20.0, 23.0, 0.0, 2.0);
        session.ball.y_movement = number(2.0);
        let step = Step {
            x_subpixel: number(20.0),
            y_subpixel: number(23.0),
            x_boosted: number(0.0),
            y_boosted: number(2.2),
        };
        game.tick(&mut session, &step);
        seen.push(game.bounces);
    }
    assert_eq!(seen, vec![1, 2, 3, 4, 0, 1, 2]);
}

#[test]
fn a_paddle_turns_the_ball_back() {
    let (mut game, mut session) = running(true);
    throw(&mut session, 75.6, 12.0, -0.8, 0.1);
    let step = step_of(&session);
    let packets = game.tick(&mut session, &step);
    assert_eq!(session.ball.x_position, 74);
    assert!(packets.is_empty());
    throw(&mut session, 74.4, 12.0, 0.8, 0.1);
    let step = step_of(&session);
    let packets = game.tick(&mut session, &step);
    assert_eq!(session.ball.x_position, 75);
    assert_eq!(value(session.ball.x_movement), -0.8);
    assert_eq!(value(session.ball.y_movement), 0.1);
    assert_eq!(packets, vec![ball_update(&session.ball)]);
}

#[test]
fn a_paddle_reaches_one_row_below_itself() {
    let paddle = GameObject::new(3, 11, 4, b'X');
    for (row, touches) in [(10, false), (11, true), (14, true), (15, true), (16, false)] {
        assert_eq!(touching(&GameObject::new(3, row, 1, b'O'), &paddle), touches, "{}", row);
    }
    assert!(!touching(&GameObject::new(4, 12, 1, b'O'), &paddle));
}

#[test]
fn a_ball_below_the_field_is_put_back() {
    let (mut game, mut session) = running(true);
    throw(&mut session, 20.0, 23.5, 0.0, 2.0);
    let step = step_of(&session);
    let packets = game.tick(&mut session, &step);
    assert_eq!(session.ball.y_position, 23);
    assert_eq!(value(session.ball.y_subpixel), 23.0);
    assert_eq!(value(session.ball.y_movement), -2.0);
    assert_eq!(packets.len(), 2);
    assert_eq!(packets[1], ball_update(&session.ball));
    let mut after_wall = session.ball;
    after_wall.y_position = 25;
    after_wall.y_subpixel = number(25.5);
    assert_eq!(packets[0], ball_update(&after_wall));
}

#[test]
fn the_other_side_only_moves_the_ball() {
    let (mut game, mut session) = running(false);
    throw(&mut session, 78.5, 22.8, 0.8, 0.4);
    let step = step_of(&session);
    let packets = game.tick(&mut session, &step);
    assert!(packets.is_empty());
    assert_eq!(session.ball.x_position, 79);
    assert_eq!(session.ball.y_position, 23);
    assert_eq!(value(session.ball.x_movement), 0.8);
    assert_eq!(value(session.ball.y_movement), 0.4);
    assert_eq!(game.round_winner, None);
    assert_eq!(game.bounces, 0);
    assert!(game.finish_round(&mut session).is_none());
    assert_eq!(session.score, (0, 0));
}

#[test]
fn the_right_edge_scores_for_the_left_player() {
    let (mut game, mut session) = running(true);
    session.score = (2, 5);
    game.bounces = 3;
    throw(&mut session, 78.5, 12.0, 0.8, 0.0);
    let step = step_of(&session);
    assert!(game.tick(&mut session, &step).is_empty());
    assert_eq!(session.ball.x_position, 79);
    assert_eq!(game.round_winner, Some(Player::Left));
    let report = game.finish_round(&mut session).unwrap();
    assert_eq!(report, IcmPongPacket::new(IcmPongPacketType::ScoreUpdate, &score_payload(3, 5)));
    assert_eq!(session.score, (3, 5));
    assert_eq!(game.round_winner, None);
    assert_eq!(game.bounces, 0);
    assert_eq!(session.ball, GameObject::new(39, 12, 1, b'O'));
    assert_eq!(value(session.ball.x_subpixel), 39.0);
    assert_eq!(value(session.ball.y_subpixel), 12.0);
    assert_eq!(value(session.ball.x_movement), 0.0);
    assert_eq!(value(session.ball.y_movement), 0.0);
    assert!(game.finish_round(&mut session).is_none());
    assert_eq!(session.score, (3, 5));
}

#[test]
fn the_left_edge_scores_for_the_right_player() {
    let (mut game, mut session) = running(true);
    throw(&mut session, 1.2, 12.0, -0.8, 0.0);
    let step = step_of(&session);
    game.tick(&mut session, &step);
    assert_eq!(session.ball.x_position, 0);
    assert_eq!(game.round_winner, Some(Player::Right));
    let report = game.finish_round(&mut session).unwrap();
    assert_eq!(report, IcmPongPacket::new(IcmPongPacketType::ScoreUpdate, &score_payload(0, 1)));
    assert_eq!(session.score, (0, 1));
}

#[test]
fn a_serve_sets_the_velocity_and_reports_the_ball() {
    let (game, mut session) = running(true);
    let packet = game.serve(&mut session, number(0.3), number(-0.5));
    let mut expected = GameObject::new(39, 12, 1, b'O');
    expected.x_movement = number(0.3);
    expected.y_movement = number(-0.5);
    assert_eq!(session.ball, expected);
    assert_eq!(packet, ball_update(&expected));
}

#[test]
fn quitting_sends_disconnect_and_ends_the_loop() {
    let mut game = GameLoop::new(false);
    let mut session = Session::new(1);
    let reaction = game.key_pressed(&mut session, Input::Quit);
    assert!(reaction.quit);
    assert_eq!(reaction.packet, Some(bare(IcmPongPacketType::Disconnect)));
    assert_eq!(reaction.packet, Some(IcmPongPacket::new(IcmPongPacketType::Disconnect, &[0; 32])));
    assert_eq!(game, GameLoop::new(false));
}

#[test]
fn asking_to_start_sends_start() {
    let mut game = GameLoop::new(false);
    let mut session = Session::new(1);
    let reaction = game.key_pressed(&mut session, Input::Start);
    assert!(!reaction.quit);
    assert_eq!(reaction.packet, Some(IcmPongPacket::new(IcmPongPacketType::Start, &[0; 32])));
    assert!(game.self_start_game);
    assert!(!game.game_started);
}

#[test]
fn arrows_do_nothing_before_the_start() {
    let mut game = GameLoop::new(true);
    let mut session = Session::new(1);
    for input in [Input::Up, Input::Down] {
        let reaction = game.key_pressed(&mut session, input);
        assert!(reaction.packet.is_none());
        assert!(!reaction.quit);
    }
    assert_eq!(session.player1, GameObject::new(3, 11, 4, b'X'));
}

#[test]
fn the_host_moves_the_left_paddle() {
    let (mut game, mut session) = running(true);
    let reaction = game.key_pressed(&mut session, Input::Up);
    assert_eq!(session.player1.y_position, 10);
    assert_eq!(session.player2.y_position, 11);
    assert_eq!(
        reaction.packet,
        Some(IcmPongPacket::new(IcmPongPacketType::PaddlePosition, &paddle_payload(3, 10)))
    );
    let reaction = game.key_pressed(&mut session, Input::Down);
    assert_eq!(session.player1.y_position, 11);
    assert_eq!(
        reaction.packet,
        Some(IcmPongPacket::new(IcmPongPacketType::PaddlePosition, &paddle_payload(3, 11)))
    );
}

#[test]
fn the_other_side_moves_the_right_paddle() {
    let (mut game, mut session) = running(false);
    let reaction = game.key_pressed(&mut session, Input::Down);
    assert_eq!(session.player2.y_position, 12);
    assert_eq!(session.player1.y_position, 11);
    assert_eq!(
        reaction.packet,
        Some(IcmPongPacket::new(IcmPongPacketType::PaddlePosition, &paddle_payload(75, 12)))
    );
}

#[test]
fn a_paddle_stops_short_of_the_walls() {
    let (mut game, mut session) = running(true);
    for _ in 0..40 {
        game.key_pressed(&mut session, Input::Up);
    }
    assert_eq!(session.player1.y_position, 1);
    assert!(game.key_pressed(&mut session, Input::Up).packet.is_none());
    for _ in 0..40 {
        game.key_pressed(&mut session, Input::Down);
    }
    assert_eq!(session.player1.y_position, 19);
    assert!(game.key_pressed(&mut session, Input::Down).packet.is_none());
    assert_eq!(session.player1.y_position + session.player1.size, 23);
}

#[test]
fn every_second_pass_redraws() {
    let mut game = GameLoop::new(true);
    let mut session = Session::new(1);
    let mut seen = Vec::new();
    for _ in 0..5 {
        seen.push(game.begin_tick(&session));
    }
    assert_eq!(seen, vec![Tick::Quiet, Tick::Redraw, Tick::Quiet, Tick::Redraw, Tick::Quiet]);
    session.stop = true;
    assert_eq!(game.begin_tick(&session), Tick::Stop);
}
