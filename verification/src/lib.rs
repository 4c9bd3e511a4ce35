//! Verified core of the Hallways portal game: menu state machines, level
//! manifest validation, texture and material-index planning, asset fetch
//! decisions, error reporting and the discrete parts of actor kinematics.
pub mod util;
pub mod sprite;
pub mod gpu;
pub mod gltf;
pub mod level;
pub mod game;
pub mod audio;
