//! An endless jumper: a player bounces on platforms under gravity while new
//! platforms appear above, with the simulation verified frame by frame.
pub mod world;
pub mod physics;
pub mod generator;
pub mod lifecycle;
pub mod laws;
