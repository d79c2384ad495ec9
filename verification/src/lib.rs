//! A sans-I/O protocol engine for WAMP v2 clients: message codec, session
//! join state machine, request bookkeeping and rawsocket framing.

pub mod authenticators;
pub mod idgen;
pub mod joiner;
pub mod messages;
pub mod serializers;
pub mod session;
pub mod text;
pub mod transports;
pub mod types;
