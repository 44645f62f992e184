//! Sprite rendering and entity bookkeeping for a small 2D game.
//!
//! The crate holds the parts of the game that decide and lay out data:
//! vertices and quads, the sprite batcher that groups quads by texture,
//! the entity world with its component maps, and the keyboard controls.
//! Arithmetic on floating-point coordinates, OpenGL and SDL stay with the
//! program that drives the library.

pub mod vertex;
pub mod quad;
pub mod sprite_batch;
pub mod component_map;
pub mod world;
pub mod controls;
pub mod render_gl;
pub mod texture_region;

pub use vertex::Vertex;
pub use quad::Quad;
pub use sprite_batch::{Batch, SpriteBatch};
pub use world::{Entity, World};
pub use component_map::Pair;
pub use controls::{command_for, Command, InputEvent, Key, Steer};
pub use texture_region::{decode_image, DecodedImage};
