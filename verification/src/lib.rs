//! Links dotfiles from a source tree into target locations on the host,
//! driven by a declarative, per-operating-system configuration.
//!
//! The crate holds the core engine: resolving which target a configuration
//! section applies to, rendering path templates into absolute paths, mapping
//! the configuration into concrete link entries, the retry protocol of one
//! hard-link operation, and the bookkeeping that splits failed attempts into
//! those worth retrying with elevated rights and those that are final.

pub mod client_os;
pub mod target;
pub mod text;
pub mod path;
pub mod render;
pub mod config;
pub mod context;
pub mod dotfile;
pub mod mapping;
pub mod hard_link;
pub mod report;
pub mod parser;
pub mod user;
pub mod answer;
