//! Launch, injection and update pipeline for a patched desktop chat client.
pub mod archive;
pub mod cache;
pub mod config;
pub mod discord;
pub mod display;
pub mod idmap;
pub mod installs;
pub mod launch;
pub mod paths;
pub mod process;
pub mod templates;
pub mod text;
pub mod theme;
pub mod updater;
