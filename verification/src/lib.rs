//! Inspects evidence gathered from a project directory, infers which
//! technologies are present, and renders a pre-commit hook configuration
//! document from a fixed library of text fragments.

pub mod config;
pub mod discover;
pub mod render;
pub mod text;
pub mod version;
