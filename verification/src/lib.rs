//! Verified core logic of the Project Peril engine: configuration records,
//! action bit sets and their routing to input consumers, component bookkeeping
//! of game objects, the fixed-timestep engine clock, and the integer decisions
//! of the renderer.

pub mod bits;
pub mod text;
pub mod input;
pub mod component;
pub mod game_object;
pub mod config;
pub mod logger;
pub mod engine;
pub mod game;
pub mod mesh;
pub mod nurbs;
pub mod render;
