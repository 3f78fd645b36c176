//! Which of the two peers is the host: the one that decides where the ball
//! goes, who scored, and when a round starts again.
//!
//! Nothing is negotiated. Each side compares its own session id with the
//! peer's; the greater one is the host.

use vstd::prelude::*;

verus! {

/// One of the two players, by the side of the field that the paddle is on.
/// The host plays on the left.
#[derive(Debug, Clone, Copy, PartialEq, Eq, Structural)]
pub enum Player {
    Left,
    Right,
}

/// Whether the side with session id `local_id` is the host, its peer having
/// `peer_id`.
pub open spec fn host_of(local_id: u32, peer_id: u32) -> bool {
    local_id > peer_id
}

/// The paddle of the peer, as the side with session id `local_id` sees it.
pub open spec fn peer_side(local_id: u32, peer_id: u32) -> Player {
    if host_of(local_id, peer_id) {
        Player::Right
    } else {
        Player::Left
    }
}

/// Whether this side is the host.
pub fn is_host(local_id: u32, peer_id: u32) -> (host: bool)
    ensures
        host == host_of(local_id, peer_id),
{
    local_id > peer_id
}

/// The paddle of the peer.
pub fn peer_player(local_id: u32, peer_id: u32) -> (player: Player)
    ensures
        player == peer_side(local_id, peer_id),
{
    if is_host(local_id, peer_id) {
        Player::Right
    } else {
        Player::Left
    }
}

/// Of two sides with different session ids exactly one is the host, and each
/// takes for its peer's paddle the one that the peer takes for its own.
pub proof fn lemma_one_host(a: u32, b: u32)
    requires
        a != b,
    ensures
        host_of(a, b) == !host_of(b, a),
        host_of(a, b) || host_of(b, a),
        !(host_of(a, b) && host_of(b, a)),
        peer_side(a, b) != peer_side(b, a),
{
}

} // verus!
