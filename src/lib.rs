//! An anonymous file-hosting service's decisions: resolving its settings,
//! naming stored files, judging uploads, shaping replies and rendering the
//! help page. Reading the network and the disk is left to the caller.

pub mod config;
pub mod naming;
pub mod reply;
pub mod upload;
pub mod pages;
pub mod laws;
