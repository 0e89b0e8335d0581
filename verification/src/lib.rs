//! A verified draw-list renderer core.
//!
//! Each frame an immediate-mode UI library produces a flat draw description:
//! segments of vertices and indices, and ordered draw commands with clip
//! rectangles and texture ids. This crate turns such a description into the
//! exact, ordered sequence of GPU operations a backend must perform. The
//! computation is pure and fully specified; an unverified shell executes the
//! resulting operation list against a real graphics context.

pub mod arith;
pub mod atlas;
pub mod draw_list;
pub mod geometry;
pub mod gpu;
pub mod laws;
pub mod pipeline;
pub mod projection;
pub mod renderer;
pub mod scissor;
