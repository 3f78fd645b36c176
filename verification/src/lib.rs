//! ICMPong: a two-player paddle game whose protocol travels inside ICMPv6
//! Echo Request messages.
//!
//! The library holds the rules: the frame and its codec, the handshake and
//! the dispatch of inbound packets, who is host, what a tick does to the
//! ball, and what the field shows. The socket, the keyboard, the terminal
//! and the arithmetic on single-precision numbers belong to the caller.

pub mod authority;
pub mod binary32;
pub mod chance;
pub mod connection;
pub mod game;
pub mod packet;
pub mod payload;
pub mod render;
pub mod session;
pub mod tui;
pub mod wire;

pub use connection::IcmPongConnection;
pub use packet::{IcmPongError, IcmPongPacket, IcmPongPacketType, PROTOCOL_VERSION};
