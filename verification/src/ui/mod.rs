pub mod components;
pub mod handler;
pub mod keyboard;
pub mod laws;
pub mod modals;
