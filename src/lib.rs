pub mod text;
pub mod spotify_api;
pub mod metadata;
pub mod error;
pub mod commands;
pub mod player;
