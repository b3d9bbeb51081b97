pub mod action;
pub mod commands;
pub mod filter;
pub mod page;
pub mod rows;
pub mod scope;
pub mod sessions;
pub mod sort;
pub mod target;
pub mod util;
