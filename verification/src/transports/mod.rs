//! Framing of messages on a byte transport.

pub mod rawsocket;
