//! Configuration management for the desktop application: the location of the
//! configuration file and its checked, backed-up replacement, the built-in
//! plugins and their install, and the planning and applying of skill
//! migrations between directories.
//!
//! The library decides; the caller reads the environment and the disk, hands
//! in what it found, and carries out the file steps and actions it gets back.

pub mod config;
pub mod error;
pub mod json;
pub mod paths;
pub mod plugins;
pub mod skills;
pub mod text;
