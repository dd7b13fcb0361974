//! Builds a world pack (one pack, one world, one room and its scene) and
//! encodes every file of it, with each encoding stated and proved.

pub mod json;
pub mod records;
pub mod scene;
pub mod path;
pub mod linux;
pub mod windows;
pub mod ids;
pub mod content;
pub mod pack;
pub mod laws;
