//! Discovery of Python interpreters managed by the pyenv version manager.
//!
//! The host supplies a snapshot of environment variables and search
//! locations, plus the raw observations of pyenv's on-disk layout; the
//! library resolves the installation root, classifies version directories,
//! and builds a deduplicated registry of environment records.

pub mod known;
pub mod messaging;
pub mod pyenv;
pub mod strutil;
pub mod version;
