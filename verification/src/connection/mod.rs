pub mod laws;
pub mod manager;
pub mod model;
pub mod registry;
pub mod task;
