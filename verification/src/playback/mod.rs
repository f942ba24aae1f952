pub mod controller;
pub mod queue;
