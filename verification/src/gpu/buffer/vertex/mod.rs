pub mod level;
pub mod overlay;
pub mod portal;
