//! The qBittorrent Web API client: its request parameters, its answers, and
//! the rules that check and merge them.
pub mod error;
pub mod models;
pub mod partial;
pub mod json;
pub mod sync;
pub mod wait;
pub mod requests;
