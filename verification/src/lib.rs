//! A small blog and dashboard server: the verified part of its logic.
pub mod auth;
pub mod blocks;
pub mod blog;
pub mod decimal;
pub mod http;
pub mod models;
pub mod server;
pub mod static_files;
pub mod text;
