pub mod crypto;
pub mod system;
pub mod text;
pub mod validation;
