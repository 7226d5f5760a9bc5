//! Repositories: where they live, how they come to be, how mirrors stay fresh.

pub mod manager;
pub mod server;
