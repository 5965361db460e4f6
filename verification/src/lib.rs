pub mod geometry;
mod rng;
pub mod world;
