//! The looks an entity can take and the materials that show them.

pub mod colors;
pub mod materials;
