//! WorkItemFlow: the domain rules of a personal work-item manager.
//!
//! - [`domain`]: entities, enums, the egress policy and the store's error type.
//! - [`data`]: how domain values are laid out in the store's columns, and back.
//! - [`ai`]: prompt templates, the egress filter, the chat exchange and the
//!   planning of analyses.
//! - [`docs`]: CSV export, file-type detection, metadata and spreadsheet text.
//! - [`modules`]: the lifecycle of the application's modules.
//! - [`text`]: character-level helpers used by the other modules.
//! - [`foreign`]: outside types carried through unopened.

pub mod ai;
pub mod data;
pub mod docs;
pub mod domain;
pub mod foreign;
pub mod modules;
pub mod text;
