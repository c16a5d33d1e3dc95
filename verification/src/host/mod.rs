//! Hosts: where the traced program runs, and where its files are read from.

pub mod docker;
pub mod native;
