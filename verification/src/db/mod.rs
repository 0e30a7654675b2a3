pub mod api_keys;
pub mod jobs;
pub mod oauth_users;
pub mod stats;
pub mod user_settings;
