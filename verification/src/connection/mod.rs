//! One connection from the greeting to a registered user.

pub mod handshake;
pub mod session;
