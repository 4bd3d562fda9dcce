//! The combinatorial core of a low-poly wallpaper generator: the vertex
//! lattice, its fixed triangulation, the key bindings and the naming of
//! captured frames.

pub mod grid;
pub mod triangulation;
pub mod controls;
pub mod capture;
