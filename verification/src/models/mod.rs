pub mod auth;
pub mod job;
pub mod request;
pub mod response;
