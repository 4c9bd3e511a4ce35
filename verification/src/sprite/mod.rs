pub mod text;
