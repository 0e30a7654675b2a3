pub mod crud;
pub mod drive;
pub mod stream;
