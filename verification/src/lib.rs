//! Scaffolding generator for a web-application starter template.
//!
//! The crate is split along the two phases of a run: resolving the user's
//! choices into a [`config::ProjectConfig`], and materializing that
//! configuration into a plan of directories and text files.  Everything that
//! decides or computes lives here and is verified; the thin shell that talks
//! to the terminal, the filesystem and external processes lives outside the
//! library and only carries plain values in and out.

pub mod cli;
pub mod config;
pub mod error;
pub mod files;
pub mod generator;
pub mod text;
pub mod validation;
