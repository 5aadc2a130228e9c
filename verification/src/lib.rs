//! Simulation core of a grid-based snake game.
//!
//! The library models the arena, the snake, the food set and the score, and
//! advances the world one fixed tick at a time: input mapping, movement,
//! collision detection, game-over reset, eating, growth and food spawning.
//! Rendering, audio and windowing are left to an outside presentation layer.

pub mod collision;
pub mod eating;
pub mod grid;
pub mod heading;
pub mod movement;
pub mod rng;
pub mod spawner;
pub mod world;

pub use grid::GridPosition;
pub use heading::Heading;
pub use heading::InputState;
pub use world::TickEvents;
pub use world::World;
