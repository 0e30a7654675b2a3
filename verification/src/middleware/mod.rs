pub mod auth;
pub mod rate_limit;
