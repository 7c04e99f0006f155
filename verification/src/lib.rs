//! The rules of a small VR arena game: the collision layers of its physics
//! world and the bodies put in it, the layout of the terrain's sample grid,
//! the status of the viking units, what the player's weapons and projectiles
//! do on each tick, and the counts handed to the renderer.

pub mod graphics;
pub mod physics;
pub mod projectile;
pub mod terrain;
pub mod unit;
pub mod weapons;
