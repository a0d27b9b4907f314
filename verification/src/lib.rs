//! A 3x3x3 twisty puzzle: the pieces with their stickers, quarter turns of
//! the six faces, the colours that each face shows, and the integer lattice
//! algebra on which all of this rests.
//!
//! The executable types are in [`linalg`] (vectors and matrices) and in
//! [`cube`] (colours, faces, pieces and the cube). Their contracts speak of
//! the mathematical model in [`model`] and, for texts of moves, in [`moves`].
//! [`render`] writes a cube as text, and [`text`] writes vectors and
//! matrices. What holds of every turn and of every sequence of turns is
//! stated and proved in [`laws`]. The modules [`geometry`], [`cycles`] and
//! [`assembly`] hold the lemmas behind the turn, the reading of a face and
//! the making of the solved cube.

pub mod assembly;
pub mod cube;
pub mod cycles;
pub mod geometry;
pub mod laws;
pub mod linalg;
pub mod model;
pub mod moves;
pub mod render;
pub mod text;
