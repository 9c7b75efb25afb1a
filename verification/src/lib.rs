pub mod commands;
pub mod entities;
pub mod events;
pub mod json;
pub mod server;
pub mod settings;
pub mod text;
