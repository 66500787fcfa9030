//! Picking and layered visual state for the entities of a 3D scene.
//!
//! Each pickable entity owns a stack of visual states whose top decides the
//! material it is drawn with. Once per frame the controller takes the entity
//! under the pointer and the held buttons, pushes and pops `Hover` and
//! `Selected` on the stacks concerned, and writes the material of every stack
//! it changed.

pub mod assets;
pub mod cursor;
pub mod entity;
pub mod laws;
pub mod scene;
pub mod selection;
