//! A small tile-and-camera scene: an entity arena with stable identifiers,
//! the set-up routines that place a block sprite, a camera and a tile map,
//! the per-tick camera system, and the mapping from a mouse cursor to the
//! tile under it. All geometry is in whole world units.
pub mod components;
pub mod world;
pub mod block;
pub mod map;
pub mod camera;
pub mod raycast;
pub mod game;
