//! The parts of an acquisition, leaves first.

pub mod acquisition;
pub mod checksum;
pub mod client;
pub mod releases;
