//! Client-side engine of a binary, frame-based, multiplexed request/response
//! protocol: header codec, opcode registry, incremental frame reader, stream
//! multiplexer and handshake state machine.

pub mod codec;
pub mod connection;
pub mod handshake;
pub mod mux;
pub mod opcode;
pub mod reader;
