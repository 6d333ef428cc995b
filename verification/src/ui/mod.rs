//! The state and decisions of the terminal front end.

pub mod types;
pub mod input;
pub mod app;
pub mod layout;
pub mod style;
