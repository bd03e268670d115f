//! Protocol engine of a bridge between an RS-485 wall-pad bus and MQTT:
//! the frame codec, the device payloads, the stream reassembler, the
//! outbound scheduler of a port and the dispatch of frames and topics.

pub mod bridge;
pub mod serial;
pub mod text;
pub mod things;
pub mod utils;
