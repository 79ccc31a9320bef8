//! Client-side protocol logic for a small quadcopter driven over UDP: text and binary
//! command framing, acknowledgment decisions, telemetry and flight-data decoding,
//! fragmented file reassembly and the session state machine.

pub mod channel;
pub mod command;
pub mod connection;
pub mod crc;
pub mod downloaded_file;
pub mod flight_data;
pub mod protocol;
pub mod telemetry;
pub mod utils;
