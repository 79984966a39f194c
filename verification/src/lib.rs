//! The office candy weigher: a scale that counts the lollies in a jar.
pub mod candy_weigher_ui;
pub mod config_consts;
pub mod effects;
pub mod hardware_controllers;
pub mod hx710;
pub mod laws;
pub mod round_robin_select;
pub mod state;
pub mod tasks;
pub mod text;
mod time;
pub mod utils;
