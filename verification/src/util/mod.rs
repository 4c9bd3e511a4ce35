pub mod color;
pub mod log;
pub mod strings;
pub mod url;
