//! Verified core of a promiscuous-mode 2.4 GHz packet sniffer.
//!
//! The library holds the logic of the sniffer: deriving the CRC generator
//! polynomial from its taps, computing the radio configuration register
//! values and the ordered write plan, formatting the per-packet diagnostic
//! report, and the interrupt-driven capture loop with its synchronized
//! ownership handoff of the register block. The memory-mapped register
//! writes themselves and the interrupt runtime are I/O and live outside
//! the library; callers replay the write plans and actions this library
//! produces onto the hardware.

pub mod capture;
pub mod config;
pub mod crc;
pub mod handoff;
pub mod report;
