pub mod account_handler;
