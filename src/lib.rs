pub mod error;
pub mod record_id;
pub mod password;
pub mod token;
pub mod models;
pub mod auth;
pub mod medication;
