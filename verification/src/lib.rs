//! Locating a GUILTY GEAR STRIVE installation and preparing its mod directory.

pub mod discovery;
pub mod normalize;
pub mod platform;
pub mod prober;
pub mod text;
