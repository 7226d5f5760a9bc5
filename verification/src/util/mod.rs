//! Naming, workflow discovery and the types shared with the host.

pub mod discord;
pub mod file_system;
pub mod markdown;
pub mod process;
pub mod text;
pub mod workflows;
