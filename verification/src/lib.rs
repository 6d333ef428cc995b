//! Verified core of a bandwidth tuner for the hysteria2 client: the tuning
//! plan and its state machine, the config-file edits, the parameter editor
//! and the terminal front end's state.

pub mod text;

pub mod config;
pub mod pattern;
pub mod tuner;
pub mod run;
pub mod ui;
