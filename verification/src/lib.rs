//! Wire protocol, reliability layer and capture-session logic for a host
//! controller talking to a WiFi-scanning rover over a single serial link.
//!
//! The crate is organised leaf-to-root: byte utilities, the CRC-16 checksum,
//! the domain value types, the command codec, the frame envelope, the
//! per-session frame ledger with its acknowledgement algorithm, the log sink,
//! and the capture-session state machine.  All wire-facing logic carries
//! contracts relating the executable code to sequence-level specifications
//! of the byte format.

pub mod ack;
pub mod bytes_be;
pub mod checksum;
pub mod cmd;
pub mod errors;
pub mod frame;
pub mod framestack;
pub mod jsontext;
pub mod logger;
pub mod model;
pub mod procs;
pub mod roundtrip;
pub mod session;
pub mod values;
