//! The game loop's side of a session: what a key does, what a tick does to
//! the ball, and how a round ends.
//!
//! Only the host judges the ball. The other side moves it along and waits to
//! be corrected. Sums and products of single-precision numbers are the
//! caller's to compute: a tick takes them ready-made in a `Step`.

use crate::authority::Player;
use crate::binary32::Binary32;
use crate::packet::{IcmPongPacket, IcmPongPacketType, PacketView, PROTOCOL_VERSION};
use crate::payload::{
    ball_bytes, ball_payload, paddle_bytes, paddle_payload, score_bytes, score_payload,
};
use crate::session::{bare_packet, ball_at_centre, Session, SessionView, PIXEL_BALL};
use crate::tui::{GameObject, X_MAXIMUM, X_MINIMUM, Y_MAXIMUM, Y_MINIMUM};
use vstd::prelude::*;

verus! {

/// After how many bounces off a wall the ball may gain speed.
pub const BOUNCES_TO_ACCELERATE: u32 = 5;

/// What the game loop keeps for itself.
#[derive(Debug, Clone, Copy, PartialEq, Eq, Structural)]
pub struct GameLoop {
    pub self_is_host: bool,
    /// Whether both sides have asked to start and the ball is moving.
    pub game_started: bool,
    /// Whether this side has asked to start.
    pub self_start_game: bool,
    /// Who won the round that has just ended, until the round is closed.
    pub round_winner: Option<Player>,
    /// The ticks since the last redraw: 0 or 1.
    pub tick_counter: u8,
    /// The bounces off a wall since the last one that could accelerate: 0 to 4.
    pub bounces: u32,
}

/// A key that means something to the game.
#[derive(Debug, Clone, Copy, PartialEq, Eq, Structural)]
pub enum Input {
    /// Leave the game.
    Quit,
    /// Ask to start.
    Start,
    /// Move the own paddle one row up.
    Up,
    /// Move the own paddle one row down.
    Down,
}

/// What the game loop has to do after a key.
#[derive(Debug, Clone, Copy)]
pub struct Reaction {
    /// To be sent, where there is one.
    pub packet: Option<IcmPongPacket>,
    /// Whether the loop ends.
    pub quit: bool,
}

/// What the caller's arithmetic unit has computed ahead of a tick, from the
/// ball as it stands.
#[derive(Debug, Clone, Copy, PartialEq, Eq, Structural)]
pub struct Step {
    /// The sub-pixel column plus the horizontal velocity.
    pub x_subpixel: Binary32,
    /// The sub-pixel row plus the vertical velocity.
    pub y_subpixel: Binary32,
    /// The horizontal velocity times the acceleration factor.
    pub x_boosted: Binary32,
    /// The vertical velocity times the acceleration factor.
    pub y_boosted: Binary32,
}

/// The `PaddlePosition` that reports a paddle.
pub open spec fn paddle_packet(paddle: GameObject) -> PacketView {
    PacketView {
        version: PROTOCOL_VERSION,
        packet_type: IcmPongPacketType::PaddlePosition,
        data: paddle_bytes(paddle.x_position, paddle.y_position),
    }
}

/// The `BallUpdate` that reports a ball.
pub open spec fn ball_packet(ball: GameObject) -> PacketView {
    PacketView {
        version: PROTOCOL_VERSION,
        packet_type: IcmPongPacketType::BallUpdate,
        data: ball_bytes(ball),
    }
}

/// The `ScoreUpdate` that reports the points.
pub open spec fn score_packet(score: (u32, u32)) -> PacketView {
    PacketView {
        version: PROTOCOL_VERSION,
        packet_type: IcmPongPacketType::ScoreUpdate,
        data: score_bytes(score.0, score.1),
    }
}

/// Whether a paddle has a free row above it inside the field.
pub open spec fn can_move_up(paddle: GameObject) -> bool {
    paddle.y_position > Y_MINIMUM + 1
}

/// Whether a paddle has a free row below it inside the field.
pub open spec fn can_move_down(paddle: GameObject) -> bool {
    paddle.y_position + paddle.size < Y_MAXIMUM - 1
}

/// The ball moved to where the step puts it: the sub-pixel position is the
/// step's, the cell is its truncation.
pub open spec fn moved(ball: GameObject, step: Step) -> GameObject {
    GameObject {
        x_position: step.x_subpixel.truncation(),
        y_position: step.y_subpixel.truncation(),
        x_subpixel: step.x_subpixel,
        y_subpixel: step.y_subpixel,
        ..ball
    }
}

/// Who wins the round with the ball where it is: the left player once the
/// ball is at the right edge, the right player once it is at the left edge.
pub open spec fn winner_at(ball: GameObject) -> Option<Player> {
    if ball.x_position <= X_MINIMUM {
        Some(Player::Right)
    } else if ball.x_position >= X_MAXIMUM {
        Some(Player::Left)
    } else {
        None
    }
}

/// Whether the ball touches the top or the bottom wall.
pub open spec fn touches_wall(ball: GameObject) -> bool {
    ball.y_position <= Y_MINIMUM || ball.y_position + ball.size >= Y_MAXIMUM
}

/// Whether the ball is in the paddle's column, on one of the paddle's rows
/// or on the row below them.
pub open spec fn touches_paddle(ball: GameObject, paddle: GameObject) -> bool {
    ball.x_position == paddle.x_position && paddle.y_position <= ball.y_position
        <= paddle.y_position + paddle.size
}

/// The count of bounces after one more.
pub open spec fn next_bounces(bounces: u32) -> u32 {
    if bounces >= BOUNCES_TO_ACCELERATE - 1 {
        0
    } else {
        (bounces + 1) as u32
    }
}

/// The ball after a bounce off a wall. The vertical velocity changes its
/// sign. On a fifth bounce, and if the vertical velocity is not beyond one
/// row per tick, both velocities are taken times the acceleration factor.
pub open spec fn bounced_off_wall(ball: GameObject, fifth: bool, step: Step) -> GameObject {
    if fifth && ball.y_movement.unit_bounded() {
        GameObject {
            x_movement: step.x_boosted,
            y_movement: step.y_boosted.negation(),
            ..ball
        }
    } else {
        GameObject { y_movement: ball.y_movement.negation(), ..ball }
    }
}

/// The ball after a bounce off a paddle: the horizontal velocity changes its
/// sign.
pub open spec fn bounced_off_paddle(ball: GameObject) -> GameObject {
    GameObject { x_movement: ball.x_movement.negation(), ..ball }
}

/// The ball put back on the last row, where it has gone below the field.
pub open spec fn held_inside(ball: GameObject) -> GameObject {
    GameObject {
        y_position: (Y_MAXIMUM - 1) as u16,
        y_subpixel: Binary32::of_u16((Y_MAXIMUM - 1) as u16),
        ..ball
    }
}

impl GameLoop {
    /// The loop's state before the first tick.
    pub open spec fn fresh(self_is_host: bool) -> GameLoop {
        GameLoop {
            self_is_host,
            game_started: false,
            self_start_game: false,
            round_winner: None,
            tick_counter: 0,
            bounces: 0,
        }
    }

    /// This side's own paddle: the left one for the host.
    pub open spec fn own_paddle(self, session: SessionView) -> GameObject {
        if self.self_is_host {
            session.player1
        } else {
            session.player2
        }
    }

    /// The session with this side's own paddle on row `y`.
    pub open spec fn with_own_paddle_at(self, session: SessionView, y: u16) -> SessionView {
        if self.self_is_host {
            SessionView { player1: GameObject { y_position: y, ..session.player1 }, ..session }
        } else {
            SessionView { player2: GameObject { y_position: y, ..session.player2 }, ..session }
        }
    }

    /// What a key does: the loop's state and the session after it, what is to
    /// be sent, and whether the loop ends.
    pub open spec fn after_key(self, session: SessionView, input: Input) -> (
        GameLoop,
        SessionView,
        Option<PacketView>,
        bool,
    ) {
        match input {
            Input::Quit => (
                self,
                session,
                Some(bare_packet(IcmPongPacketType::Disconnect)),
                true,
            ),
            Input::Start => (
                GameLoop { self_start_game: true, ..self },
                session,
                Some(bare_packet(IcmPongPacketType::Start)),
                false,
            ),
            Input::Up => if self.self_start_game && can_move_up(self.own_paddle(session)) {
                let y = (self.own_paddle(session).y_position - 1) as u16;
                let after = self.with_own_paddle_at(session, y);
                (self, after, Some(paddle_packet(self.own_paddle(after))), false)
            } else {
                (self, session, None, false)
            },
            Input::Down => if self.self_start_game && can_move_down(self.own_paddle(session)) {
                let y = (self.own_paddle(session).y_position + 1) as u16;
                let after = self.with_own_paddle_at(session, y);
                (self, after, Some(paddle_packet(self.own_paddle(after))), false)
            } else {
                (self, session, None, false)
            },
        }
    }

    /// What a tick does: the loop's state and the session after it, and the
    /// `BallUpdate`s to be sent, in their order.
    ///
    /// Before both sides have asked to start nothing moves. Then the ball is
    /// moved, and on the side that is not the host that is all. The host
    /// looks for the end of the round, then for a wall, then for a paddle,
    /// then for a ball below the field, and reports the ball after each of
    /// the last three.
    pub open spec fn ticked(self, session: SessionView, step: Step) -> (
        GameLoop,
        SessionView,
        Seq<PacketView>,
    ) {
        if !self.game_started {
            (self, session, Seq::empty())
        } else if !self.self_is_host {
            (self, SessionView { ball: moved(session.ball, step), ..session }, Seq::empty())
        } else {
            let ball = moved(session.ball, step);
            let winner = match winner_at(ball) {
                Some(player) => Some(player),
                None => self.round_winner,
            };
            let wall = touches_wall(ball);
            let bounces = if wall {
                next_bounces(self.bounces)
            } else {
                self.bounces
            };
            let ball1 = if wall {
                bounced_off_wall(ball, bounces == 0, step)
            } else {
                ball
            };
            let sent1 = if wall {
                seq![ball_packet(ball1)]
            } else {
                Seq::empty()
            };
            let paddle = touches_paddle(ball1, session.player1) || touches_paddle(
                ball1,
                session.player2,
            );
            let ball2 = if paddle {
                bounced_off_paddle(ball1)
            } else {
                ball1
            };
            let sent2 = if paddle {
                sent1.push(ball_packet(ball2))
            } else {
                sent1
            };
            let below = ball2.y_subpixel.above(Y_MAXIMUM);
            let ball3 = if below {
                held_inside(ball2)
            } else {
                ball2
            };
            let sent3 = if below {
                sent2.push(ball_packet(ball3))
            } else {
                sent2
            };
            (
                GameLoop { round_winner: winner, bounces, ..self },
                SessionView { ball: ball3, ..session },
                sent3,
            )
        }
    }

    /// How a round is closed: the winner gets a point, the ball goes back to
    /// the centre, and the host reports the points.
    pub open spec fn round_closed(self, session: SessionView) -> (
        GameLoop,
        SessionView,
        Option<PacketView>,
    ) {
        match self.round_winner {
            None => (self, session, None),
            Some(player) => {
                let score = match player {
                    Player::Left => ((session.score.0 + 1) as u32, session.score.1),
                    Player::Right => (session.score.0, (session.score.1 + 1) as u32),
                };
                (
                    GameLoop {
                        round_winner: None,
                        bounces: if self.self_is_host {
                            0
                        } else {
                            self.bounces
                        },
                        ..self
                    },
                    SessionView { score, ball: ball_at_centre(), ..session },
                    if self.self_is_host {
                        Some(score_packet(score))
                    } else {
                        None
                    },
                )
            },
        }
    }

    /// The loop's state before the first tick.
    pub fn new(self_is_host: bool) -> (game: Self)
        ensures
            game == Self::fresh(self_is_host),
    {
        GameLoop {
            self_is_host,
            game_started: false,
            self_start_game: false,
            round_winner: None,
            tick_counter: 0,
            bounces: 0,
        }
    }
}

/// What the views of a list of packets are.
pub open spec fn packet_views(packets: Seq<IcmPongPacket>) -> Seq<PacketView> {
    packets.map_values(|packet: IcmPongPacket| packet@)
}

/// What the view of a packet to be sent is, where there is one.
pub open spec fn packet_view(packet: Option<IcmPongPacket>) -> Option<PacketView> {
    match packet {
        Some(packet) => Some(packet@),
        None => None,
    }
}

/// A packet of the given type with an empty payload.
pub fn bare(packet_type: IcmPongPacketType) -> (packet: IcmPongPacket)
    ensures
        packet@ == bare_packet(packet_type),
{
    let nothing: [u8; 32] = [0u8; 32];
    assert(nothing@ =~= crate::payload::blank());
    IcmPongPacket::new(packet_type, &nothing)
}

/// The `BallUpdate` that reports a ball.
pub fn ball_update(ball: &GameObject) -> (packet: IcmPongPacket)
    ensures
        packet@ == ball_packet(*ball),
{
    IcmPongPacket::new(IcmPongPacketType::BallUpdate, &ball_payload(ball))
}

impl GameLoop {
    /// Takes a key. Leaving sends a `Disconnect` and ends the loop. Asking
    /// to start sends a `Start`. Once this side has asked to start, the
    /// arrow keys move its paddle by one row while it stays clear of the
    /// walls, and every move is reported.
    pub fn key_pressed(&mut self, session: &mut Session, input: Input) -> (reaction: Reaction)
        ensures
            (*final(self), final(session)@, packet_view(reaction.packet), reaction.quit) == old(
                self,
            ).after_key(old(session)@, input),
    {
        match input {
            Input::Quit => Reaction {
                packet: Some(bare(IcmPongPacketType::Disconnect)),
                quit: true,
            },
            Input::Start => {
                self.self_start_game = true;
                Reaction { packet: Some(bare(IcmPongPacketType::Start)), quit: false }
            },
            Input::Up => {
                let paddle = if self.self_is_host {
                    session.player1
                } else {
                    session.player2
                };
                if self.self_start_game && paddle.y_position > Y_MINIMUM + 1 {
                    self.report_own_paddle(session, paddle.y_position - 1)
                } else {
                    Reaction { packet: None, quit: false }
                }
            },
            Input::Down => {
                let paddle = if self.self_is_host {
                    session.player1
                } else {
                    session.player2
                };
                if self.self_start_game && (paddle.y_position as u32 + paddle.size as u32) < (
                Y_MAXIMUM as u32) - 1 {
                    self.report_own_paddle(session, paddle.y_position + 1)
                } else {
                    Reaction { packet: None, quit: false }
                }
            },
        }
    }

    /// Puts this side's own paddle on row `y` and reports it.
    fn report_own_paddle(&self, session: &mut Session, y: u16) -> (reaction: Reaction)
        ensures
            final(session)@ == self.with_own_paddle_at(old(session)@, y),
            packet_view(reaction.packet) == Some(
                paddle_packet(self.own_paddle(final(session)@)),
            ),
            !reaction.quit,
    {
        let x: u16;
        if self.self_is_host {
            session.player1.y_position = y;
            x = session.player1.x_position;
        } else {
            session.player2.y_position = y;
            x = session.player2.x_position;
        }
        Reaction {
            packet: Some(
                IcmPongPacket::new(IcmPongPacketType::PaddlePosition, &paddle_payload(x, y)),
            ),
            quit: false,
        }
    }

    /// Advances the ball by one tick and, on the host, judges it. Returns
    /// the `BallUpdate`s to be sent, in their order.
    pub fn tick(&mut self, session: &mut Session, step: &Step) -> (packets: Vec<IcmPongPacket>)
        ensures
            (*final(self), final(session)@, packet_views(packets@)) == old(self).ticked(
                old(session)@,
                *step,
            ),
    {
        let mut packets: Vec<IcmPongPacket> = Vec::new();
        assert(packet_views(packets@) =~= Seq::empty());
        if !self.game_started {
            return packets;
        }
        session.ball.x_subpixel = step.x_subpixel;
        session.ball.y_subpixel = step.y_subpixel;
        session.ball.x_position = step.x_subpixel.to_u16();
        session.ball.y_position = step.y_subpixel.to_u16();
        if !self.self_is_host {
            return packets;
        }
        if session.ball.x_position <= X_MINIMUM {
            self.round_winner = Some(Player::Right);
        } else if session.ball.x_position >= X_MAXIMUM {
            self.round_winner = Some(Player::Left);
        }
        if session.ball.y_position <= Y_MINIMUM || session.ball.y_position as u32
            + session.ball.size as u32 >= Y_MAXIMUM as u32 {
            self.bounces = if self.bounces >= BOUNCES_TO_ACCELERATE - 1 {
                0
            } else {
                self.bounces + 1
            };
            if self.bounces == 0 && session.ball.y_movement.is_unit_bounded() {
                session.ball.x_movement = step.x_boosted;
                session.ball.y_movement = step.y_boosted.negated();
            } else {
                session.ball.y_movement = session.ball.y_movement.negated();
            }
            let ghost before = packets@;
            packets.push(ball_update(&session.ball));
            assert(packet_views(packets@) =~= packet_views(before).push(
                ball_packet(session.ball),
            ));
        }
        if touching(&session.ball, &session.player1) || touching(
            &session.ball,
            &session.player2,
        ) {
            session.ball.x_movement = session.ball.x_movement.negated();
            let ghost before = packets@;
            packets.push(ball_update(&session.ball));
            assert(packet_views(packets@) =~= packet_views(before).push(
                ball_packet(session.ball),
            ));
        }
        if session.ball.y_subpixel.is_above(Y_MAXIMUM) {
            session.ball.y_subpixel = Binary32::from_u16(Y_MAXIMUM - 1);
            session.ball.y_position = Y_MAXIMUM - 1;
            let ghost before = packets@;
            packets.push(ball_update(&session.ball));
            assert(packet_views(packets@) =~= packet_views(before).push(
                ball_packet(session.ball),
            ));
        }
        packets
    }

    /// Closes a round that has a winner: a point for the winner, the ball
    /// back to the centre. On the host the count of bounces starts again and
    /// the `ScoreUpdate` to be sent comes back; a serve is then due.
    pub fn finish_round(&mut self, session: &mut Session) -> (packet: Option<IcmPongPacket>)
        requires
            old(self).round_winner == Some(Player::Left) ==> old(session).score.0 < u32::MAX,
            old(self).round_winner == Some(Player::Right) ==> old(session).score.1 < u32::MAX,
        ensures
            (*final(self), final(session)@, packet_view(packet)) == old(self).round_closed(
                old(session)@,
            ),
    {
        let winner = match self.round_winner {
            Some(player) => player,
            None => {
                return None;
            },
        };
        match winner {
            Player::Left => {
                session.score.0 = session.score.0 + 1;
            },
            Player::Right => {
                session.score.1 = session.score.1 + 1;
            },
        }
        self.round_winner = None;
        session.ball = GameObject::new(X_MAXIMUM / 2, Y_MAXIMUM / 2, 1, PIXEL_BALL);
        if self.self_is_host {
            self.bounces = 0;
            Some(
                IcmPongPacket::new(
                    IcmPongPacketType::ScoreUpdate,
                    &score_payload(session.score.0, session.score.1),
                ),
            )
        } else {
            None
        }
    }

    /// Serves: gives the ball its velocity and returns the `BallUpdate` to
    /// be sent.
    pub fn serve(
        &self,
        session: &mut Session,
        x_movement: Binary32,
        y_movement: Binary32,
    ) -> (packet: IcmPongPacket)
        ensures
            final(session)@ == (SessionView {
                ball: GameObject { x_movement, y_movement, ..old(session)@.ball },
                ..old(session)@
            }),
            packet@ == ball_packet(final(session)@.ball),
    {
        session.ball.x_movement = x_movement;
        session.ball.y_movement = y_movement;
        ball_update(&session.ball)
    }
}

/// Whether the ball is in the paddle's column, on one of the paddle's rows
/// or on the row below them.
pub fn touching(ball: &GameObject, paddle: &GameObject) -> (touches: bool)
    ensures
        touches == touches_paddle(*ball, *paddle),
{
    ball.x_position == paddle.x_position && ball.y_position >= paddle.y_position
        && ball.y_position as u32 <= paddle.y_position as u32 + paddle.size as u32
}

/// What a pass of the game loop starts with.
#[derive(Debug, Clone, Copy, PartialEq, Eq, Structural)]
pub enum Tick {
    /// The session is over: the loop ends.
    Stop,
    /// A pass without a redraw.
    Quiet,
    /// A pass that ends with a redraw: every second one.
    Redraw,
}

impl GameLoop {
    /// How a pass of the loop begins.
    pub open spec fn tick_begun(self, session: SessionView) -> (GameLoop, Tick) {
        if session.stop {
            (self, Tick::Stop)
        } else if self.tick_counter >= 1 {
            (GameLoop { tick_counter: 0, ..self }, Tick::Redraw)
        } else {
            (GameLoop { tick_counter: 1, ..self }, Tick::Quiet)
        }
    }

    /// Begins a pass of the loop: looks whether the session is over, and
    /// counts the pass.
    pub fn begin_tick(&mut self, session: &Session) -> (tick: Tick)
        ensures
            (*final(self), tick) == old(self).tick_begun(session@),
    {
        if session.stop {
            Tick::Stop
        } else if self.tick_counter >= 1 {
            self.tick_counter = 0;
            Tick::Redraw
        } else {
            self.tick_counter = 1;
            Tick::Quiet
        }
    }
}

/// On the side that is not the host a tick moves the ball and does nothing
/// else: nothing is judged and nothing is sent.
pub proof fn lemma_only_the_host_judges(game: GameLoop, session: SessionView, step: Step)
    requires
        game.game_started,
        !game.self_is_host,
    ensures
        game.ticked(session, step) == (
            game,
            SessionView { ball: moved(session.ball, step), ..session },
            Seq::<PacketView>::empty(),
        ),
{
}

/// A ball that a tick of the host brings to a wall turns back: its vertical
/// velocity has the other sign and the same size, and its horizontal
/// velocity is as it was. This is so for every tick that meets no paddle and
/// is not a bounce that accelerates.
pub proof fn lemma_wall_turns_the_ball(game: GameLoop, session: SessionView, step: Step)
    requires
        game.game_started,
        game.self_is_host,
        touches_wall(moved(session.ball, step)),
        !(next_bounces(game.bounces) == 0 && session.ball.y_movement.unit_bounded()),
        !touches_paddle(moved(session.ball, step), session.player1),
        !touches_paddle(moved(session.ball, step), session.player2),
    ensures
        game.ticked(session, step).1.ball.y_movement == session.ball.y_movement.negation(),
        game.ticked(session, step).1.ball.y_movement.sign_set()
            == !session.ball.y_movement.sign_set(),
        game.ticked(session, step).1.ball.y_movement.magnitude()
            == session.ball.y_movement.magnitude(),
        game.ticked(session, step).1.ball.x_movement == session.ball.x_movement,
        game.ticked(session, step).2.len() >= 1,
        game.ticked(session, step).2[0] == ball_packet(
            bounced_off_wall(moved(session.ball, step), false, step),
        ),
{
    crate::binary32::lemma_negation(session.ball.y_movement);
}

/// A ball that a tick of the host brings to the right edge ends the round
/// for the left player. Closing the round gives the left player one point
/// more and the right player none, puts the ball at rest on the centre cell
/// with nothing left over beside it, and reports the points.
pub proof fn lemma_right_edge_scores_left(game: GameLoop, session: SessionView, step: Step)
    requires
        game.game_started,
        game.self_is_host,
        moved(session.ball, step).x_position >= X_MAXIMUM,
        session.score.0 < u32::MAX,
    ensures
        game.ticked(session, step).0.round_winner == Some(Player::Left),
        ({
            let (judged, after, _) = game.ticked(session, step);
            let (closed, ended, report) = judged.round_closed(after);
            &&& closed.round_winner is None
            &&& closed.bounces == 0
            &&& ended.score.0 == session.score.0 + 1
            &&& ended.score.1 == session.score.1
            &&& ended.ball == ball_at_centre()
            &&& ended.ball.x_position == 39 && ended.ball.y_position == 12
            &&& ended.ball.x_subpixel.truncation() == ended.ball.x_position
            &&& ended.ball.y_subpixel.truncation() == ended.ball.y_position
            &&& ended.ball.x_movement.bits == 0 && ended.ball.y_movement.bits == 0
            &&& report == Some(score_packet(ended.score))
        }),
{
    crate::binary32::lemma_whole_numbers_are_exact(39);
    crate::binary32::lemma_whole_numbers_are_exact(12);
}

/// The same at the left edge, for the right player.
pub proof fn lemma_left_edge_scores_right(game: GameLoop, session: SessionView, step: Step)
    requires
        game.game_started,
        game.self_is_host,
        moved(session.ball, step).x_position <= X_MINIMUM,
        session.score.1 < u32::MAX,
    ensures
        game.ticked(session, step).0.round_winner == Some(Player::Right),
        ({
            let (judged, after, _) = game.ticked(session, step);
            let (closed, ended, report) = judged.round_closed(after);
            &&& closed.round_winner is None
            &&& ended.score.0 == session.score.0
            &&& ended.score.1 == session.score.1 + 1
            &&& ended.ball == ball_at_centre()
            &&& report == Some(score_packet(ended.score))
        }),
{
}

/// A paddle that the arrow keys move stays between the walls: where it was
/// clear of them before a key, it is after.
pub proof fn lemma_paddle_stays_inside(game: GameLoop, session: SessionView, input: Input)
    requires
        Y_MINIMUM + 1 <= game.own_paddle(session).y_position,
        game.own_paddle(session).y_position + game.own_paddle(session).size <= Y_MAXIMUM - 1,
    ensures
        ({
            let (after, moved_session, _, _) = game.after_key(session, input);
            let paddle = after.own_paddle(moved_session);
            &&& Y_MINIMUM + 1 <= paddle.y_position
            &&& paddle.y_position + paddle.size <= Y_MAXIMUM - 1
            &&& paddle.x_position == game.own_paddle(session).x_position
            &&& paddle.size == game.own_paddle(session).size
        }),
{
}

} // verus!
