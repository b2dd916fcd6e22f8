//! Typed values carried inside request bodies.

pub mod attribute;
