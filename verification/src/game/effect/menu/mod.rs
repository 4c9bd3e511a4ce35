pub mod intro;
pub mod load;
pub mod pause;
pub mod visit;
