//! Screen-space thick-line rendering, modelled as verified data pipelines.
//!
//! A polyline is an ordered sequence of 3-D points drawn as a continuous
//! thick line.  This crate holds the decision logic of such a renderer:
//! pipeline-key encoding, material and phase classification, clip-plane
//! packing, per-frame extraction, draw batching and the buffer layout
//! arithmetic.  Scalars the logic inspects (colors, widths, depth bias)
//! are carried in 16.16 fixed point; positions, transforms and plane
//! equations are opaque 32-bit words that the pipeline moves verbatim
//! into GPU-bound buffers.  Talking to a real GPU device and an entity
//! store is left to an embedding host.

pub mod clipping;
pub mod global_render_resources_node;
pub mod material;
pub mod pipeline;
pub mod polyline;
pub mod prelude;
pub mod render_resource;
