//! Wide, GPU-instanced polylines: the host-independent core.
//!
//! The crate holds the decisions that turn a list of points into an instanced
//! draw: the pipeline key and its specialization into a pipeline description,
//! the per-frame extraction of visible polylines, the preparation of vertex
//! data, and the bind-group and draw commands. Device and world access stay
//! with the host, which performs the commands that these functions return.

pub mod bind_group;
pub mod draw;
pub mod extract;
pub mod host;
pub mod key;
pub mod pipeline;
pub mod polyline;
