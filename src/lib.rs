//! Verified core of a command-line client for a GPU-rental marketplace:
//! request building, input validation, the confirmation step and the
//! rendering of machine listings.
pub mod api;
pub mod cli;
pub mod config;
pub mod confirm;
pub mod datetime;
pub mod handlers;
pub mod models;
pub mod presenter;
pub mod prompts;
pub mod text;
