//! Osiris platform integration.
//!
//! This library turns a declarative application manifest into validated,
//! platform-specific configuration and source scaffolding for native build
//! toolchains. The manifest is a TOML document; it is parsed into a raw
//! tree, validated, resolved into per-entity views with defaulting and
//! precedence rules, and finally rendered into a plan of file operations
//! that a thin runner applies to the file system.

pub mod document;
pub mod manifest;
pub mod op;
pub mod platform;
pub mod util;
