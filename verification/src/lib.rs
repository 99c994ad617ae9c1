pub mod text;
pub mod model;
pub mod keys;
pub mod media;
pub mod config;
pub mod app;
pub mod extension;
pub mod api;
pub mod ui;
pub mod motion;
pub mod screenshot;
pub mod landing;
pub mod demo;
pub mod auth;
pub mod browser;
pub mod cli;
