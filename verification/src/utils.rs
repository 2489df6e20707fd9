pub mod auth;
pub mod strings;
