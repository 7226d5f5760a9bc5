//! What the service answers.

pub mod routes;
