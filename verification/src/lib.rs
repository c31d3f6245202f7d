//! A verified ICMP echo ("ping") core: the message model with its
//! bit-exact wire codec (RFC 792 header layout, RFC 1071 Internet
//! checksum) and the session state machine that drives one echo
//! request per interval and classifies what comes back.
//!
//! Transport (raw sockets), hostname resolution and interface
//! discovery are collaborators outside this library.

pub mod checksum;
pub mod icmp;
pub mod session;
