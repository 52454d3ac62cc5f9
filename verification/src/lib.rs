//! Keeps a generated program's identifier consistent between its source
//! stub and its manifest, and picks the dependency versions a generated
//! project should declare.
//!
//! The library works on texts and plain values; reading and writing files,
//! asking the registry and running tools is left to its caller.
//!
//! - `text`, `lines`: characters, searching, and the line structure of a
//!   text.
//! - `field`, `field_laws`: reading and rewriting one declared value.
//! - `program_id`: the identifier as source stub and manifest declare it.
//! - `sync`, `sync_laws`: reconciling the two.
//! - `version`, `registry`: choosing a version from what a registry lists.
//! - `dependency`, `update`: declared dependency versions and their update.
//! - `names`, `network`, `project`: names, networks and what the commands
//!   decide.
//! - `render`, `templates`: the files of a new project.

pub mod dependency;
pub mod field;
pub mod field_laws;
pub mod lines;
pub mod names;
pub mod network;
pub mod program_id;
pub mod project;
pub mod registry;
pub mod render;
pub mod sync;
pub mod sync_laws;
pub mod templates;
pub mod text;
pub mod update;
pub mod version;
