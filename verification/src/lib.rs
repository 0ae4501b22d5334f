//! Account registration and authentication for a local wallet backend:
//! credential validation, salted password hashing, and an account store that
//! keeps emails, usernames and identifiers unique.
pub mod cli;
pub mod database;
pub mod errors;
pub mod handlers;
pub mod models;
pub mod services;
pub mod utils;
