pub mod content_type;
pub mod encoding;
pub mod file;
pub mod validation;
