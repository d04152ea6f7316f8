//! Interactive core of a two-player chess board viewer: coordinate mapping,
//! position decoding, the local board cache and the click state machine.
pub mod piece;
pub mod coords;
pub mod board;
pub mod codec;
pub mod turn;
pub mod session;
