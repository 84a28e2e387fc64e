//! Persistence core for hierarchical writing artifacts: free-form scratches,
//! projects with nested outlines, and templates.
//!
//! The crate holds the entity model, the transfer objects that cross the caller
//! boundary, the managers that assign identity and time, and the rules by which
//! entities are laid out on disk and written atomically. File-system access
//! itself is left to the caller: the storage layer says which operations to
//! perform and what their outcomes mean.

pub mod convert;
pub mod disk;
pub mod dto;
pub mod durability;
pub mod error;
pub mod ident;
pub mod manager;
pub mod model;
pub mod path;
pub mod repository;
pub mod storage;
pub mod time;
pub mod workspace;
