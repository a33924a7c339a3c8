pub mod data;
pub mod ids;
pub mod laws;
