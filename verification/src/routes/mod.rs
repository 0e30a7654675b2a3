pub mod admin;
pub mod auth;
pub mod convert;
pub mod health;
pub mod jobs;
pub mod stats;
