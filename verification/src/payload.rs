//! What the 32 payload bytes mean for each packet type.
//!
//! | type             | layout                                             |
//! |------------------|----------------------------------------------------|
//! | `Ready`          | `[len:1][name:len]`, `len` 0 for no name           |
//! | `PaddlePosition` | `[x:2][y:2]`                                       |
//! | `BallUpdate`     | `[x:2][y:2][vx:4][vy:4][xf:4][yf:4]`               |
//! | `ScoreUpdate`    | `[left:4][right:4]`                                |
//!
//! `Ping`, `Start` and `Disconnect` carry nothing. Bytes that a layout does
//! not use are zero when written and ignored when read.

use crate::binary32::Binary32;
use crate::tui::GameObject;
use crate::wire::{get_u16, get_u32, overwrite, put_u16, put_u32, u16_bytes, u16_value, u32_bytes, u32_value};
use vstd::prelude::*;
use vstd::slice::slice_to_vec;
use vstd::string::StringSliceAdditionalSpecFns;

verus! {

/// The longest name that a player may choose, in bytes.
pub const MAX_NAME_LENGTH: usize = 30;

/// The longest name that a payload has room for, in bytes.
pub const NAME_CAPACITY: usize = 31;

/// A payload of zeros.
pub open spec fn blank() -> Seq<u8> {
    Seq::new(32, |i: int| 0u8)
}

/// A player's name: at most 31 bytes, so that it fits a payload. The empty
/// name stands for a player who gave none.
#[derive(Debug)]
pub struct PlayerName {
    bytes: Vec<u8>,
}

impl View for PlayerName {
    type V = Seq<u8>;

    closed spec fn view(&self) -> Seq<u8> {
        self.bytes@
    }
}

impl PlayerName {
    #[verifier::type_invariant]
    spec fn fits(self) -> bool {
        self.bytes@.len() <= NAME_CAPACITY
    }

    /// The name of a player who gave none.
    pub fn anonymous() -> (name: Self)
        ensures
            name@ == Seq::<u8>::empty(),
    {
        PlayerName { bytes: Vec::new() }
    }

    /// The name that a player chose; `None` where it is longer than 30 bytes.
    pub fn new(text: &str) -> (name: Option<Self>)
        ensures
            match name {
                Some(name) => text.spec_bytes().len() <= MAX_NAME_LENGTH && name@
                    == text.spec_bytes(),
                None => text.spec_bytes().len() > MAX_NAME_LENGTH,
            },
    {
        let bytes = text.as_bytes();
        if bytes.len() > MAX_NAME_LENGTH {
            None
        } else {
            Some(PlayerName { bytes: slice_to_vec(bytes) })
        }
    }

    /// The bytes of the name.
    pub fn as_bytes(&self) -> (bytes: &[u8])
        ensures
            bytes@ == self@,
            bytes@.len() <= NAME_CAPACITY,
    {
        proof {
            use_type_invariant(self);
        }
        self.bytes.as_slice()
    }

    /// A copy of the name.
    pub fn duplicate(&self) -> (name: Self)
        ensures
            name@ == self@,
    {
        proof {
            use_type_invariant(self);
        }
        PlayerName { bytes: slice_to_vec(self.bytes.as_slice()) }
    }
}

/// The payload of a `Ready` that carries `name`.
pub open spec fn ready_bytes(name: Seq<u8>) -> Seq<u8>
    recommends
        name.len() <= 31,
{
    overwrite(blank(), 0, seq![name.len() as u8] + name)
}

/// The name that the payload of a `Ready` carries: the bytes that its first
/// byte counts, where that is neither zero nor more than the payload holds.
pub open spec fn ready_name(payload: Seq<u8>) -> Option<Seq<u8>>
    recommends
        payload.len() == 32,
{
    if payload[0] == 0 || payload[0] > 31 {
        None
    } else {
        Some(payload.subrange(1, 1 + payload[0]))
    }
}

/// The payload of a `PaddlePosition`.
pub open spec fn paddle_bytes(x: u16, y: u16) -> Seq<u8> {
    overwrite(overwrite(blank(), 0, u16_bytes(x)), 2, u16_bytes(y))
}

/// The position that the payload of a `PaddlePosition` carries.
pub open spec fn paddle_position(payload: Seq<u8>) -> (u16, u16)
    recommends
        payload.len() == 32,
{
    (u16_value(payload.subrange(0, 2)), u16_value(payload.subrange(2, 4)))
}

/// The payload of a `BallUpdate` that reports `ball`.
pub open spec fn ball_bytes(ball: GameObject) -> Seq<u8> {
    overwrite(
        overwrite(
            overwrite(
                overwrite(
                    overwrite(
                        overwrite(blank(), 0, u16_bytes(ball.x_position)),
                        2,
                        u16_bytes(ball.y_position),
                    ),
                    4,
                    u32_bytes(ball.x_movement.bits),
                ),
                8,
                u32_bytes(ball.y_movement.bits),
            ),
            12,
            u32_bytes(ball.x_subpixel.bits),
        ),
        16,
        u32_bytes(ball.y_subpixel.bits),
    )
}

/// `ball` after the payload of a `BallUpdate` has been taken over: position,
/// velocity and sub-pixel position are the payload's, size and pixel stay.
pub open spec fn ball_updated(ball: GameObject, payload: Seq<u8>) -> GameObject
    recommends
        payload.len() == 32,
{
    GameObject {
        x_position: u16_value(payload.subrange(0, 2)),
        y_position: u16_value(payload.subrange(2, 4)),
        size: ball.size,
        pixel: ball.pixel,
        x_movement: Binary32 { bits: u32_value(payload.subrange(4, 8)) },
        y_movement: Binary32 { bits: u32_value(payload.subrange(8, 12)) },
        x_subpixel: Binary32 { bits: u32_value(payload.subrange(12, 16)) },
        y_subpixel: Binary32 { bits: u32_value(payload.subrange(16, 20)) },
    }
}

/// The payload of a `ScoreUpdate`.
pub open spec fn score_bytes(left: u32, right: u32) -> Seq<u8> {
    overwrite(overwrite(blank(), 0, u32_bytes(left)), 4, u32_bytes(right))
}

/// The two counters that the payload of a `ScoreUpdate` carries.
pub open spec fn score_pair(payload: Seq<u8>) -> (u32, u32)
    recommends
        payload.len() == 32,
{
    (u32_value(payload.subrange(0, 4)), u32_value(payload.subrange(4, 8)))
}

/// The payload of a `Ready` that carries `name`.
pub fn ready_payload(name: &PlayerName) -> (payload: [u8; 32])
    ensures
        payload@ == ready_bytes(name@),
{
    let bytes = name.as_bytes();
    let mut payload: [u8; 32] = [0u8; 32];
    payload[0] = bytes.len() as u8;
    let mut i: usize = 0;
    while i < bytes.len()
        invariant
            i <= bytes@.len() <= 31,
            payload@ == overwrite(
                blank(),
                0,
                seq![bytes@.len() as u8] + bytes@.subrange(0, i as int),
            ),
        decreases bytes@.len() - i,
    {
        payload[i + 1] = bytes[i];
        assert(payload@ =~= overwrite(
            blank(),
            0,
            seq![bytes@.len() as u8] + bytes@.subrange(0, i + 1),
        ));
        i += 1;
    }
    assert(bytes@.subrange(0, bytes@.len() as int) == bytes@);
    payload
}

/// The name that the payload of a `Ready` carries, if it carries one.
pub fn parse_ready(payload: &[u8; 32]) -> (name: Option<PlayerName>)
    ensures
        match name {
            Some(name) => ready_name(payload@) == Some(name@),
            None => ready_name(payload@) is None,
        },
{
    let length: usize = payload[0] as usize;
    if length == 0 || length > NAME_CAPACITY {
        return None;
    }
    let mut bytes: Vec<u8> = Vec::with_capacity(length);
    let mut i: usize = 0;
    while i < length
        invariant
            i <= length <= 31,
            bytes@ == payload@.subrange(1, 1 + i),
        decreases length - i,
    {
        bytes.push(payload[i + 1]);
        assert(bytes@ =~= payload@.subrange(1, 1 + i + 1));
        i += 1;
    }
    Some(PlayerName { bytes })
}

/// The payload of a `PaddlePosition`.
pub fn paddle_payload(x: u16, y: u16) -> (payload: [u8; 32])
    ensures
        payload@ == paddle_bytes(x, y),
{
    let mut payload: [u8; 32] = [0u8; 32];
    assert(payload@ =~= blank());
    put_u16(&mut payload, 0, x);
    put_u16(&mut payload, 2, y);
    payload
}

/// The position that the payload of a `PaddlePosition` carries.
pub fn parse_paddle(payload: &[u8; 32]) -> (position: (u16, u16))
    ensures
        position == paddle_position(payload@),
{
    (get_u16(payload.as_slice(), 0), get_u16(payload.as_slice(), 2))
}

/// The payload of a `BallUpdate` that reports `ball`.
pub fn ball_payload(ball: &GameObject) -> (payload: [u8; 32])
    ensures
        payload@ == ball_bytes(*ball),
{
    let mut payload: [u8; 32] = [0u8; 32];
    assert(payload@ =~= blank());
    put_u16(&mut payload, 0, ball.x_position);
    put_u16(&mut payload, 2, ball.y_position);
    put_u32(&mut payload, 4, ball.x_movement.to_bits());
    put_u32(&mut payload, 8, ball.y_movement.to_bits());
    put_u32(&mut payload, 12, ball.x_subpixel.to_bits());
    put_u32(&mut payload, 16, ball.y_subpixel.to_bits());
    payload
}

/// `ball` after the payload of a `BallUpdate` has been taken over.
pub fn parse_ball(ball: &GameObject, payload: &[u8; 32]) -> (updated: GameObject)
    ensures
        updated == ball_updated(*ball, payload@),
{
    let bytes = payload.as_slice();
    GameObject {
        x_position: get_u16(bytes, 0),
        y_position: get_u16(bytes, 2),
        size: ball.size,
        pixel: ball.pixel,
        x_movement: Binary32::from_bits(get_u32(bytes, 4)),
        y_movement: Binary32::from_bits(get_u32(bytes, 8)),
        x_subpixel: Binary32::from_bits(get_u32(bytes, 12)),
        y_subpixel: Binary32::from_bits(get_u32(bytes, 16)),
    }
}

/// The payload of a `ScoreUpdate`.
pub fn score_payload(left: u32, right: u32) -> (payload: [u8; 32])
    ensures
        payload@ == score_bytes(left, right),
{
    let mut payload: [u8; 32] = [0u8; 32];
    assert(payload@ =~= blank());
    put_u32(&mut payload, 0, left);
    put_u32(&mut payload, 4, right);
    payload
}

/// The two counters that the payload of a `ScoreUpdate` carries.
pub fn parse_score(payload: &[u8; 32]) -> (score: (u32, u32))
    ensures
        score == score_pair(payload@),
{
    (get_u32(payload.as_slice(), 0), get_u32(payload.as_slice(), 4))
}

/// A name of at most 31 bytes comes out of a `Ready` as it went in; the empty
/// name comes out as none.
pub proof fn lemma_ready_round_trip(name: Seq<u8>)
    requires
        name.len() <= 31,
    ensures
        ready_bytes(name).len() == 32,
        ready_name(ready_bytes(name)) == if name.len() == 0 {
            None
        } else {
            Some(name)
        },
{
    if name.len() > 0 {
        assert(ready_bytes(name).subrange(1, 1 + name.len() as int) =~= name);
    }
}

/// A paddle position comes out of a `PaddlePosition` as it went in.
pub proof fn lemma_paddle_round_trip(x: u16, y: u16)
    ensures
        paddle_bytes(x, y).len() == 32,
        paddle_position(paddle_bytes(x, y)) == (x, y),
{
    let payload = paddle_bytes(x, y);
    assert(payload.subrange(0, 2) =~= u16_bytes(x));
    assert(payload.subrange(2, 4) =~= u16_bytes(y));
    crate::wire::lemma_u16_round_trip(x);
    crate::wire::lemma_u16_round_trip(y);
}

/// A ball that takes over the `BallUpdate` of another has that ball's
/// position, velocity and sub-pixel position, bit for bit.
pub proof fn lemma_ball_round_trip(sent: GameObject, receiver: GameObject)
    ensures
        ball_bytes(sent).len() == 32,
        ball_updated(receiver, ball_bytes(sent)) == (GameObject {
            size: receiver.size,
            pixel: receiver.pixel,
            ..sent
        }),
{
    let payload = ball_bytes(sent);
    assert(payload.subrange(0, 2) =~= u16_bytes(sent.x_position));
    assert(payload.subrange(2, 4) =~= u16_bytes(sent.y_position));
    assert(payload.subrange(4, 8) =~= u32_bytes(sent.x_movement.bits));
    assert(payload.subrange(8, 12) =~= u32_bytes(sent.y_movement.bits));
    assert(payload.subrange(12, 16) =~= u32_bytes(sent.x_subpixel.bits));
    assert(payload.subrange(16, 20) =~= u32_bytes(sent.y_subpixel.bits));
    crate::wire::lemma_u16_round_trip(sent.x_position);
    crate::wire::lemma_u16_round_trip(sent.y_position);
    crate::wire::lemma_u32_round_trip(sent.x_movement.bits);
    crate::wire::lemma_u32_round_trip(sent.y_movement.bits);
    crate::wire::lemma_u32_round_trip(sent.x_subpixel.bits);
    crate::wire::lemma_u32_round_trip(sent.y_subpixel.bits);
}

/// The two counters come out of a `ScoreUpdate` as they went in.
pub proof fn lemma_score_round_trip(left: u32, right: u32)
    ensures
        score_bytes(left, right).len() == 32,
        score_pair(score_bytes(left, right)) == (left, right),
{
    let payload = score_bytes(left, right);
    assert(payload.subrange(0, 4) =~= u32_bytes(left));
    assert(payload.subrange(4, 8) =~= u32_bytes(right));
    crate::wire::lemma_u32_round_trip(left);
    crate::wire::lemma_u32_round_trip(right);
}

} // verus!
