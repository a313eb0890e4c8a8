//! The routes of the registry.

pub mod admin;
