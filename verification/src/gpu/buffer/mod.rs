pub mod index;
pub mod storage;
pub mod vertex;
