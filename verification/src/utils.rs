//! Locations on disk.

pub mod paths;
