//! Grid movement core for a terminal-rendered, grid-based exploration game.
//!
//! A mover (the player camera) lives on an integer 3D lattice and walks in
//! the four cardinal directions. Each movement attempt is resolved against
//! the set of placed blocks (walls, ramps, billboards, ...) into either a
//! legal destination cell or a blocked bump target; ramps connect adjacent
//! altitude levels, and their directional alignment is checked through a
//! pair of edge heights per cell boundary. The modules here hold the pure
//! value types, occupancy queries, the movement resolver, the mover state
//! machine, and the adapters that decide what the presentation layer should
//! animate. Rendering, asset loading, audio and input plumbing are external
//! collaborators and stay outside this crate.

pub mod animation;
pub mod direction;
pub mod input;
pub mod layer;
pub mod level;
pub mod mover;
pub mod movement;
pub mod position;
pub mod text;
