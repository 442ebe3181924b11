//! A verified core for a live network-traffic monitor.
//!
//! Raw link-layer frames are decoded through the Ethernet, IPv4/IPv6 and
//! TCP/UDP/ICMP layers, classified into service categories by well-known
//! port, and aggregated into per-flow statistics, per-category counters
//! with a bounded history, a coarse region attribution, and interface
//! throughput rates.  The capture driver itself (the packet source, the
//! shared locks and the threads) lives outside this crate and calls in
//! with plain values.

pub mod addr;
pub mod capture;
pub mod category;
pub mod counters;
pub mod decode;
pub mod flows;
pub mod fmt;
pub mod geo;
pub mod modes;
pub mod throughput;
