//! A verified system-summary report library.
//!
//! The library turns a snapshot of host facts (hostname, memory, swap, boot
//! time, terminal size, local address, CPU and process counts, disks) into an
//! ordered report of labeled string values, and lays that report out as
//! fixed-width two-column text preceded by an optional ASCII-art banner.

pub mod banner;
pub mod clock;
pub mod facts;
pub mod numerals;
pub mod render;
pub mod report;
pub mod sizes;
