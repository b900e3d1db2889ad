//! Core of an asset-build pipeline for a static web bundler.
//!
//! The library dispatches raw asset declarations found in an HTML document to
//! typed asset variants, computes content-addressed output names for copied
//! files, and reconciles build outputs back into a document model through
//! id-based correlation selectors, so that finalization is safe in any
//! completion order.

pub mod asset_file;
pub mod assets;
pub mod attrs;
pub mod digits;
pub mod dom;
pub mod errors;
pub mod orchestrator;
pub mod output;
pub mod selector;
pub mod stage;
