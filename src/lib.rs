//! An in-memory store of named byte streams that readers can follow while
//! they are still being uploaded.
pub mod delivery;
pub mod namespace;
pub mod outside;
pub mod record;
