//! A blob store core: the permission bitset, capability tokens and their
//! checks, and the storage engine's atomic store protocol with its digest.

pub mod permission;
pub mod auth;
pub mod digest;
pub mod storage;
pub mod store;
pub mod token;
pub mod resolver;
pub mod errors;
pub mod requests;
pub mod access;
