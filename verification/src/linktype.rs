//! Link-layer header types (values of pcap's `DLT_*` / `LINKTYPE_*` constants).

use vstd::prelude::*;

verus! {

/// BSD loopback: 4-byte address family, then the IP packet (macOS `lo0`).
pub const NULL: i32 = 0;

pub const ETHERNET: i32 = 1;

pub const RAW: i32 = 101;

/// OpenBSD loopback: same layout as NULL, family in network byte order.
pub const LOOP: i32 = 108;

/// Linux "cooked" capture (the `any` pseudo-interface): 16-byte header.
pub const LINUX_SLL: i32 = 113;

/// Linux "cooked" capture v2 (newer libpcap for `any`): 20-byte header.
pub const LINUX_SLL2: i32 = 276;

pub const IPV4: i32 = 228;

pub const IPV6: i32 = 229;

} // verus!
