pub mod index;
pub mod laws;
pub mod models;
