# packet-sniffer

A command-line network packet sniffer. It captures live traffic with libpcap and
prints one line per packet (addresses, ports, protocol and details such as TCP
flags, well-known services, ICMP types and ARP requests), optionally followed by a
hex dump of the first 64 bytes.

The decoding and formatting library under `src/` is verified with Verus:

- `decode.rs` — where a frame's headers start for each link type, the calls into
  `etherparse`, and `decode` itself;
- `headers.rs` — the decoded headers as plain values;
- `summary.rs` — `summarize`, whose result is stated exactly by `summary_of`;
- `hexdump.rs` — `hex_dump`, stated exactly by `hex_dump_text`;
- `text.rs` — numbers, addresses, ports and service names;
- `capture.rs` — the decisions of the capture loop;
- `linktype.rs` — the supported pcap link types;
- `laws.rs` — properties of the library as a whole, with their proofs.

`app/main.rs` holds the command line (clap), the capture loop over pcap and the
colored terminal output (crossterm). `tests/` run the library on packets built with
`etherparse`'s `PacketBuilder` and on hand-written headers.
