//! The decisions of the Word Condenser desktop shell.

pub mod conductor;
pub mod config;
pub mod errors;
pub mod install;
pub mod launch;
pub mod launch_laws;
pub mod lifecycle;
pub mod notifications;
pub mod profile;
pub mod seed;
pub mod text;
pub mod tray;
pub mod window;
