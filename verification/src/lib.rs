pub mod text;
pub mod color;
pub mod config;
pub mod theme;
pub mod shell;
pub mod ui;
pub mod layout;
pub mod status;
pub mod env;
pub mod render;
pub mod input;
pub mod cli;
pub mod notes;
pub mod order;
