//! A small arcade game as a state machine over fixed-point integers: a paddle
//! that moves between two walls and fires one projectile at a time, which
//! flies until its lifetime runs out or it touches a wall.

pub mod arena;
pub mod collide;
pub mod components;
pub mod game;
pub mod systems;
pub mod vector;
