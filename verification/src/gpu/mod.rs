pub mod bind_group;
pub mod buffer;
