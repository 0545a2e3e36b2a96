//! Packet decoding for a command-line sniffer: turns captured frames into one-line
//! summaries and renders hex dumps. The summary and dump formats are stated and
//! proved; header parsing is `etherparse`'s and IPv6 address text is the standard
//! library's, both named in the contracts.

pub mod capture;
pub mod decode;
pub mod headers;
pub mod hexdump;
pub mod laws;
pub mod linktype;
pub mod summary;
pub mod text;
