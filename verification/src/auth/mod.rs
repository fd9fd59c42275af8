pub mod cache;
pub mod cookies;
pub mod keys;
pub mod limiter;
pub mod middleware;
pub mod password;
pub mod settings;
