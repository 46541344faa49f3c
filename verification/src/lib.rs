//! Core of a Discord music bot: tracks, queues, player state, command
//! parsing, configuration validation, permissions and persistence rules.
pub mod text;
pub mod audio;
pub mod discord;
pub mod config;
pub mod permissions;
pub mod guild;
pub mod persistence;
