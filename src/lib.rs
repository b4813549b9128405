//! Gameplay rules of a small 2.5D platformer: how pressed actions become a
//! movement direction and a jump, and how collisions with the stage switch a
//! character between standing on the ground and being in the air.

pub mod contact;
pub mod control;
pub mod state;
