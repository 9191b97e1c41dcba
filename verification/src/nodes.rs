//! The kinds of node that the editor creates.

pub mod image;
pub mod line;
pub mod path;
