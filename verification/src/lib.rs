//! Acquisition of a release archive: which asset of a release is the archive,
//! what is asked of the release index, how a streamed body becomes a buffer,
//! whether the downloaded bytes match the published digest, and in which
//! order these steps follow each other.
//!
//! Nothing here touches the network or the disk. The caller owns the
//! transport and the file system, performs what the functions of this crate
//! ask for, and hands back what came of it.

pub mod api;
