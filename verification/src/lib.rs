//! Credential and session authentication: password hashing, signed session
//! tokens, single-use password-reset tokens, the bearer-token guard, and the
//! register / login / forgot-password / reset-password / current-user flows.
//!
//! The flows never touch storage themselves. Each one is a step function from
//! its state and the store's last reply to the next state and either a request
//! for the store or the final outcome; the caller performs the request and
//! hands the reply back.

pub mod auth;
pub mod clock;
pub mod errors;
pub mod laws;
pub mod models;
pub mod routes;
pub mod store;
pub mod view;
