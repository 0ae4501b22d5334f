pub mod authentication;
pub mod registration;
pub mod user_service;
pub mod user_store;
