//! Typed value encoding and domain entities for a directory service.
//!
//! The crate defines the strongly-typed values that cross the boundary
//! between an in-memory user/group directory and its persisted or
//! transported representation: deterministic identifiers, normalized
//! login identifiers, validated binary photo assets, a closed attribute
//! type tag, an opaque binary value codec, and the entity aggregates
//! built from them.

pub mod codec;
pub mod entities;
pub mod errors;
pub mod identifier;
pub mod login;
pub mod photo;
pub mod tag;
pub mod time;
