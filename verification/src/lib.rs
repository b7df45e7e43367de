//! Verified core of a port-reuse echo service.
//!
//! The service binds N independent sockets to one listen address with
//! kernel-level load sharing enabled, and echoes received bytes back to the
//! sender. This crate holds the decision logic of that engine — which socket
//! options each worker's socket gets, how receive errors are classified, how a
//! worker reacts to each accept or receive outcome, and the byte-exact echo
//! payloads — with contracts checked by Verus. The surrounding process
//! performs the socket calls and drives the loops.

pub mod addr;

pub mod buffer;

pub mod errors;

pub mod datagram_echo;

pub mod provision;

pub mod stream_echo;

pub mod supervisor;
