//! Movement, collision and portal teleportation engine for a 2D platform-puzzle
//! game, on integer fixed-point coordinates.

pub mod units;
pub mod rect_collider;
pub mod raycast;
pub mod physics_controller;
pub mod portal_controller;
pub mod ellipsoid_collider;
pub mod networking;
pub mod potion;
pub mod game;
pub mod plate_controller;
pub mod player;
pub mod object_controller;
pub mod animation_controller;
