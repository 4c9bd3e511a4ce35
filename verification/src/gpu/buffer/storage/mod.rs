pub mod material_index;
