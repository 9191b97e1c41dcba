//! Requests about image nodes.

use vstd::prelude::*;

verus! {

/// A request to the host about an image.
#[derive(Clone, Debug)]
pub enum RadiantImageMessage {
    /// Load the image at `path` and add a node that shows it.
    AddImage { name: String, path: String },
}

} // verus!
