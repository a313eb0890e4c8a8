//! The verified core of an authorization registry: what its administration
//! endpoints decide, which steps each of them takes and in which order, how
//! its configuration is completed and how its routes are laid out.
//!
//! Everything that waits for the network, the database or the clock stands
//! outside: a request is an [`exchange::Exchange`] that names the next action
//! to perform and is resumed with what came of it.

pub mod access;
pub mod app;
pub mod audit;
pub mod config;
pub mod error;
pub mod exchange;
pub mod ids;
pub mod laws;
pub mod model;
pub mod openapi;
pub mod policy;
pub mod promises;
pub mod request;
pub mod routes;
pub mod time;
