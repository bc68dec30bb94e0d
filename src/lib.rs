//! Per-module source transforms: named-import rewriting, barrel re-export
//! trimming and server/client boundary annotation, over a verified model of a
//! module's tree.
pub mod ast;
pub mod barrel;
pub mod config;
pub mod laws;
pub mod named_import;
pub mod rules;
pub mod server_components;
