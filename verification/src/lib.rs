//! Command-line translator core: language codes, argument parsing,
//! profiles, rendering, request planning and response decoding.

pub mod text;
pub mod error;
pub mod lang;
pub mod browser;
pub mod profile;
pub mod config;
pub mod color;
pub mod json;
pub mod render;
pub mod cli;
pub mod engine;
pub mod input;
pub mod commands;
pub mod google;
pub mod fallback;
pub mod cache;
