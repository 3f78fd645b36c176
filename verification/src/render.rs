//! What the field shows: the points, the names, the ball and the paddles,
//! and what the players are waiting for.

use crate::game::GameLoop;
use crate::payload::PlayerName;
use crate::session::{Session, SessionView};
use crate::tui::{cell_index, cleared, drawn, Field, X_MAXIMUM, Y_MAXIMUM, Y_MINIMUM};
use crate::wire::overwrite;
use vstd::prelude::*;
use vstd::string::StringSliceAdditionalSpecFns;

verus! {

/// The column where the points of the left player start.
pub const LEFT_SCORE_COLUMN: u16 = 34;

/// The column where the points of the right player start.
pub const RIGHT_SCORE_COLUMN: u16 = 41;

/// The row of the messages.
pub const MESSAGE_ROW: u16 = 20;

/// The decimal digits of `n`, in ASCII.
pub open spec fn decimal(n: nat) -> Seq<u8>
    decreases n,
{
    if n < 10 {
        seq![(48 + n) as u8]
    } else {
        decimal(n / 10).push((48 + n % 10) as u8)
    }
}

/// How points are shown: in decimal, with at least two digits, between two
/// spaces.
pub open spec fn score_text(points: u32) -> Seq<u8> {
    if points < 10 {
        seq![32u8, 48u8] + decimal(points as nat) + seq![32u8]
    } else {
        seq![32u8] + decimal(points as nat) + seq![32u8]
    }
}

/// A number below 2^32 has at most ten digits.
pub proof fn lemma_decimal_length(n: nat)
    requires
        n <= u32::MAX,
    ensures
        1 <= decimal(n).len() <= 10,
{
    reveal_with_fuel(decimal, 11);
}

/// The message for a player who has not yet asked to start.
pub open spec fn press_space() -> Seq<u8> {
    "Press SPACE to start the game!".spec_bytes()
}

/// The message for a player whose peer has not yet asked to start.
pub open spec fn waiting_for_peer() -> Seq<u8> {
    "Waiting for peer to press SPACE...".spec_bytes()
}

/// What the field shows for a game in this state. `name` is this side's own.
///
/// Over the empty field come, each over what is there: the points of the
/// left and of the right player in the top row, beside the centre; this
/// side's name at the left end of the top row and the peer's at its right
/// end; the ball and the two paddles; and, as long as the ball is not
/// moving, what the players are waiting for.
pub open spec fn rendered(game: GameLoop, session: SessionView, name: Seq<u8>) -> Seq<u8> {
    let with_left = overwrite(
        cleared(),
        cell_index(LEFT_SCORE_COLUMN as int, Y_MINIMUM as int),
        score_text(session.score.0),
    );
    let with_right = overwrite(
        with_left,
        cell_index(RIGHT_SCORE_COLUMN as int, Y_MINIMUM as int),
        score_text(session.score.1),
    );
    let with_name = overwrite(with_right, 0, name);
    let with_names = match session.peer_name {
        Some(peer_name) => overwrite(with_name, X_MAXIMUM - peer_name.len(), peer_name),
        None => with_name,
    };
    let with_objects = drawn(
        drawn(drawn(with_names, session.ball), session.player1),
        session.player2,
    );
    if game.game_started {
        with_objects
    } else if !game.self_start_game {
        overwrite(
            with_objects,
            cell_index(X_MAXIMUM / 2 - 15, MESSAGE_ROW as int),
            press_space(),
        )
    } else if !session.peer_ready_to_start {
        overwrite(
            with_objects,
            cell_index(X_MAXIMUM / 2 - 17, MESSAGE_ROW as int),
            waiting_for_peer(),
        )
    } else {
        with_objects
    }
}

/// The text that shows points.
pub fn score_label(points: u32) -> (text: Vec<u8>)
    ensures
        text@ == score_text(points),
        4 <= text@.len() <= 12,
{
    let mut digits: Vec<u8> = Vec::new();
    let mut rest: u32 = points;
    digits.insert(0, 48 + (rest % 10) as u8);
    rest = rest / 10;
    assert(decimal(points as nat) =~= (if rest > 0 {
        decimal(rest as nat)
    } else {
        Seq::empty()
    }) + digits@);
    while rest > 0
        invariant
            decimal(points as nat) == (if rest > 0 {
                decimal(rest as nat)
            } else {
                Seq::empty()
            }) + digits@,
        decreases rest,
    {
        let ghost before = digits@;
        let ghost pending = rest;
        digits.insert(0, 48 + (rest % 10) as u8);
        rest = rest / 10;
        assert(decimal(pending as nat) + before =~= (if rest > 0 {
            decimal(rest as nat)
        } else {
            Seq::empty()
        }) + digits@);
    }
    assert(digits@ =~= decimal(points as nat));
    proof {
        lemma_decimal_length(points as nat);
    }
    let mut text: Vec<u8> = Vec::new();
    text.push(32);
    if points < 10 {
        text.push(48);
    }
    let ghost head = text@;
    let mut i: usize = 0;
    while i < digits.len()
        invariant
            i <= digits@.len() <= 10,
            text@ == head + digits@.subrange(0, i as int),
        decreases digits@.len() - i,
    {
        text.push(digits[i]);
        assert(text@ =~= head + digits@.subrange(0, i + 1));
        i += 1;
    }
    assert(digits@.subrange(0, digits@.len() as int) == digits@);
    text.push(32);
    assert(text@ =~= score_text(points));
    text
}

impl GameLoop {
    /// The loop's state after a redraw: the ball starts to move once both
    /// sides have asked to start.
    pub open spec fn started(self, session: SessionView) -> GameLoop {
        if !self.game_started && self.self_start_game && session.peer_ready_to_start {
            GameLoop { game_started: true, ..self }
        } else {
            self
        }
    }

    /// Whether the host has to serve after a redraw: it has, when the ball
    /// starts to move.
    pub open spec fn serve_due(self, session: SessionView) -> bool {
        !self.game_started && self.self_start_game && session.peer_ready_to_start
            && self.self_is_host
    }

    /// Draws the field anew and starts the game once both sides have asked
    /// for it. Returns whether a serve is due. `name` is this side's own.
    pub fn redraw(&mut self, session: &Session, field: &mut Field, name: &PlayerName) -> (serve: bool)
        ensures
            final(field)@ == rendered(*old(self), session@, name@),
            *final(self) == old(self).started(session@),
            serve == old(self).serve_due(session@),
    {
        field.clear();
        let left = score_label(session.score.0);
        field.write_bytes(LEFT_SCORE_COLUMN, Y_MINIMUM, left.as_slice());
        let right = score_label(session.score.1);
        field.write_bytes(RIGHT_SCORE_COLUMN, Y_MINIMUM, right.as_slice());
        field.write_bytes(0, Y_MINIMUM, name.as_bytes());
        match &session.peer_name {
            Some(peer_name) => {
                let bytes = peer_name.as_bytes();
                field.write_bytes(X_MAXIMUM - bytes.len() as u16, Y_MINIMUM, bytes);
            },
            None => {},
        }
        field.draw(&session.ball);
        field.draw(&session.player1);
        field.draw(&session.player2);
        if self.game_started {
            return false;
        }
        if !self.self_start_game {
            let message = "Press SPACE to start the game!";
            proof {
                reveal_strlit("Press SPACE to start the game!");
                vstd::string::is_ascii_spec_bytes(message);
            }
            field.write(X_MAXIMUM / 2 - 15, MESSAGE_ROW, message);
            false
        } else if !session.peer_ready_to_start {
            let message = "Waiting for peer to press SPACE...";
            proof {
                reveal_strlit("Waiting for peer to press SPACE...");
                vstd::string::is_ascii_spec_bytes(message);
            }
            field.write(X_MAXIMUM / 2 - 17, MESSAGE_ROW, message);
            false
        } else {
            self.game_started = true;
            self.self_is_host
        }
    }
}

} // verus!
