//! Repository abstraction for a content-addressed storage node.
//!
//! A repository pairs a block store, which keeps blocks under their content
//! identifiers, with a data store for auxiliary state, both rooted at one
//! location, and carries the lifecycle of the pair.
pub mod block;
pub mod options;
pub mod path;
pub mod repo;

pub use options::IpfsOptions;
