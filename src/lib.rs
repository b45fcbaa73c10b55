//! A small presentation engine: drawable elements composed into a tree,
//! positioned by anchors and driven frame by frame.

pub mod anchor;
pub mod drawable;
pub mod driver;
pub mod geometry;
pub mod image;
pub mod timer;
