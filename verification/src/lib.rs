//! TCP SYN port scanning: probe construction, reply filtering, pacing and
//! the scan coordinator, as a library of verified decisions. The caller owns
//! the raw sockets, the clock and the threads; this crate decides what is
//! sent, what counts as an open port, and when the scan is over.

pub mod addr;
pub mod checksum;
pub mod config;
pub mod coordinator;
pub mod error;
pub mod header;
pub mod iface;
pub mod packet;
pub mod ports;
pub mod receiver;
pub mod scanner;
pub mod session;
pub mod sort;
pub mod transmitter;
pub mod ui;
