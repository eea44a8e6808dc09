pub mod auth;
pub mod crypto;
pub mod encoding;
pub mod errors;
pub mod models;

pub use errors::AppError;
