//! Decision logic of a tray tool that folds newly opened Explorer windows
//! into tabs of an existing Explorer window.

pub mod text;
pub mod path_resolver;
pub mod process_info;
pub mod config;
pub mod detector;
pub mod tabify_engine;
pub mod window_controller;
pub mod logger;
pub mod tray;
pub mod com_navigator;
pub mod input;
pub mod uia_tab_creator;
