//! Planning and supervision of a chroot container's lifecycle.
//!
//! The library performs no input or output of its own. Every operation on a
//! container (install, login, unmount, remove, backup) is laid out as a plan of
//! steps. A [`cli::Session`] hands the steps to the host one request at a time and
//! decides from each reply how the operation goes on: which failures end it,
//! which are only reported, and with which exit code the process leaves.

pub mod utils;
pub mod host;
pub mod compress;
pub mod config;
pub mod protocol;
pub mod chroot;
pub mod cli;
pub mod laws;
