//! Detection and dispatch of protocol messages in raw byte chunks.
//!
//! Bytes arrive on a connection in chunks. The [`codec`] takes whatever a connection's
//! buffer holds as one frame and offers the frame to every parser of a registry; each
//! [`parser`] says whether the frame is of its format and, if so, decodes it to a
//! [`message`]. The [`connection`] handler strings the two together for one connection
//! and follows it from its first read to its end.
//!
//! Every function here is verified against the contract it carries, but for what is
//! taken on trust from outside: the byte buffer of the `bytes` crate ([`buffer`]), and
//! the reading of UTF-8 and of JSON ([`json`]).
pub mod buffer;
pub mod codec;
pub mod connection;
pub mod json;
pub mod kafka;
pub mod message;
pub mod parser;

pub use codec::MyBytesCodec;
pub use connection::{ConnectionHandler, ConnectionState, ReadEvent, Step, TerminalRecord};
pub use json::ExampleJSONParser;
pub use kafka::ExampleKafkaParser;
pub use message::{Message, ParseOutcome};
pub use parser::{MessageProtocolParser, ParserHandle};
