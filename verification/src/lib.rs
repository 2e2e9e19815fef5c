//! Cache-coordinated refresh core of a personal weather and news dashboard.

pub mod auth;
pub mod cache;
pub mod config;
pub mod freshness;
pub mod geocode;
pub mod json;
pub mod news;
pub mod outbox;
pub mod refresh;
pub mod state;
pub mod store;
pub mod text;
pub mod thumbnail;
pub mod weather;
