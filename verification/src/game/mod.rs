pub mod effect;
pub mod state;
