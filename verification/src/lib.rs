//! Resolution of a modpack version on a package registry and the
//! integrity-checked download of its files.

pub mod cli;
pub mod download;
pub mod hash;
pub mod minecraft;
pub mod resolver;
