//! A manifest resolution and validation engine for a multi-language
//! WebAssembly project build tool.
//!
//! Given a manifest's text and the path it was reached by, the engine parses
//! the declarative key-value format, validates the common fields, resolves
//! the language toolchain the manifest targets and which of the mutually
//! exclusive project archetypes it declares, applies each variant's
//! defaults, and assembles one immutable [`config::ResolvedConfig`] — or a
//! discriminated [`error::ConfigError`] whose rendered message names the
//! exact path and the exact thing that is wrong.
//!
//! The engine itself never touches the filesystem: [`locate::locate_manifest`]
//! decides from the caller's probe results which file to read, and
//! [`resolve::resolve_manifest`] turns the file's text into the
//! configuration. Every decision in between is verified.
//!
//! Alongside the engine, [`output`] shapes control-plane query responses —
//! modeled as the plain values of [`control`] — into command results and
//! tables: which rows appear in what order, which placeholders stand in for
//! absent values, and the exact texts, are all verified; only the final
//! rendering of a finished row list is an outside call.

pub mod config;
pub mod control;
pub mod document;
pub mod error;
pub mod grammar;
pub mod laws;
pub mod locate;
pub mod output;
pub mod resolve;
pub mod strutil;
pub mod table;
pub mod version;
