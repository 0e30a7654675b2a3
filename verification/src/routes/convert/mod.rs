pub mod guest;
