//! A duplex protocol-translation tunnel between a message-oriented transport
//! and a raw byte-stream transport. Outbound messages become length-prefixed
//! frames on the stream side; inbound byte chunks are forwarded whole as
//! messages, except that chunks carrying inline control records are
//! intercepted and their room code reported instead.

pub mod events;
pub mod frame;
pub mod connector;
pub mod sink;
pub mod sniffer;
pub mod tunnel;
