//! A two-player "guess the secret number" game and the framed wire protocol
//! that carries it.
//!
//! * [`protocol`] holds the greeting, the frame codec and the messages.
//! * [`driver`] holds the parsers that read the messages out of bytes.
//! * [`connection`] holds the state machines of a connection: the handshake
//!   that registers a peer, and the session that follows it.
//! * [`game`] holds the game engine: players, seats, turns and guesses.
//!
//! The library does no input or output. Every function is verified against
//! the contract it carries; the contracts speak of mathematical views of the
//! data, and the laws that relate several functions are stated and proved
//! next to them. The few calls into other crates (`byteorder`, `serde_json`,
//! `uuid`) and into unspecified parts of the standard library are made by
//! small functions marked `external_body`, whose contracts are believed
//! rather than proved.

pub mod connection;
pub mod driver;
pub mod game;
pub mod protocol;
