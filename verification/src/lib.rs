//! A retained-mode 2D scene core: persistent nodes, lazily rebuilt triangle
//! meshes, a frame packer and the draw plan handed to a graphics device.
//!
//! All geometry is integer. Logical positions are whole points; mesh
//! positions are device pixels in fixed point, 256 steps to the pixel; the
//! pixel scale is pixels per point in 256ths.
//!
//! The way of a frame: an edit marks a node stale; the scene rebuilds the
//! meshes of stale nodes when the frame is built; the renderer packs the
//! meshes into its two buffers and lists the draws, each clipped to its
//! scissor rectangle, in paint order.

/// Colours and the pick colour of a node.
pub mod color;
/// The failures that the core reports.
pub mod error;
/// Points, rectangles, the screen.
pub mod geometry;
/// Triangle meshes.
pub mod mesh;
/// The width of lines.
pub mod stroke;
/// From shapes to meshes.
pub mod tessellator;
/// Transform and selection.
pub mod components;
/// The node and its mesh cache.
pub mod node;
/// Line, path and image nodes.
pub mod nodes;
/// The scene graph.
pub mod scene;
/// Buffer capacities and byte ranges.
pub mod buffers;
/// Scissor rectangles.
pub mod scissor;
/// The texture cache.
pub mod textures;
/// The device submitter.
pub mod renderer;
/// The runtime of a document.
pub mod runtime;
