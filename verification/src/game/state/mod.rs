pub mod actor;
pub mod keyboard;
pub mod menu;
pub mod scene;
