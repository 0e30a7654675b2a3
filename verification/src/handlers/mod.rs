pub mod document;
pub mod image;
pub mod media;
pub mod pdf;
