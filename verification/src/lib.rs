//! Verified core of a utility that trims Nintendo DS(i) ROM images:
//! checksum computation, header parsing and validation, and trim-size
//! computation. File I/O stays with the caller.

pub mod config;
pub mod crc;
pub mod nds;
