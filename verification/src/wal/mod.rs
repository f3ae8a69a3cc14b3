//! The write-ahead log: an append-only sequence of framed records.
//!
//! Each record carries a log sequence number that is larger than its
//! predecessor's. A frame whose length, checksum or trailing length
//! disagrees ends the log for a reader: a record that a crash cut short
//! bounds the recoverable prefix and is no error.

pub mod checksum;
pub mod frame;
pub mod payload;
pub mod reader;
pub mod writer;
