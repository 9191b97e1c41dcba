//! The components that every node carries.

pub mod selection;
pub mod transform;
