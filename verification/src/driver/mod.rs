//! Reading the protocol's messages out of received bytes.

pub mod parser;
