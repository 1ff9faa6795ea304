pub mod chip8;
pub mod decode;
pub mod error;
pub mod model;
mod rng;
pub mod laws;
