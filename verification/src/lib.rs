//! A multi-layer network protocol dissector.
//!
//! Given a raw link-layer frame, the library decodes a chain of nested
//! headers (Ethernet, then ARP / IPv4 / IPv6, then TCP / UDP / ICMP, then
//! DNS) into structured value records, dispatching at each layer on the
//! type or protocol discriminant carried in the previous layer's header.
//! Every decoder treats the buffer length as untrusted and fails with a
//! typed error instead of reading out of bounds.

pub mod application;
pub mod datalink;
pub mod error;
pub mod network;
pub mod pipeline;
pub mod transport;
pub mod util;
