pub mod speaker;
