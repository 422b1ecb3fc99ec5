//! Asset resolution and caching for a code-to-image renderer.
//!
//! Loads syntax and theme definition sets from a cache directory, falling
//! back to embedded defaults; merges folder-supplied definitions and
//! persists them; and resolves exactly one syntax grammar and one theme
//! for a given input, applying a background-override rule.

pub mod assets;
pub mod cache;
pub mod color;
pub mod error;
pub mod listing;
pub mod pipeline;
pub mod syntax;
pub mod syntect_api;
pub mod theme;
