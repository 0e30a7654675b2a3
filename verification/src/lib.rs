//! Asynchronous conversion-job engine: admission, job lifecycle, dispatch
//! checkpoints, progress broadcasting, retry and cancellation.

pub mod clock;
pub mod config;
pub mod db;
pub mod error;
pub mod handlers;
pub mod ident;
pub mod lifecycle;
pub mod middleware;
pub mod models;
pub mod paths;
pub mod routes;
pub mod services;
pub mod text;
pub mod utils;
