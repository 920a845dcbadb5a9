//! A dynamically growable render graph over wgpu: an ordered sequence of
//! render nodes whose outputs are chained through a ping/pong pair of
//! offscreen textures, with the last node writing to the presentation
//! surface. Target resolution, append-time input wiring, and the
//! skip-on-unbound-input rule are verified; the GPU calls themselves stand
//! behind the trusted boundary in `gpu`.

pub mod gpu;
pub mod texture;
pub mod base_node;
pub mod fract_node;
pub mod render_node;
