pub mod converter;
pub mod download;
pub mod google_auth;
pub mod google_drive;
pub mod progress;
pub mod queue;
pub mod stats;
pub mod webhooks;
