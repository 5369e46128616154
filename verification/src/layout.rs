//! The layout engine: size ranges, spaces of the screen, and layout trees
//! that compute their size and hand each item the space it is drawn in.

pub mod point;
pub mod size;
pub mod space;
pub mod tree;
