//! Center pieces of bigger cubes: center corners, center edges and center wings.

pub mod corner;
pub mod edge;
pub mod wing;
