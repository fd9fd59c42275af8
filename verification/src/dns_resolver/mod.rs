//! The local DNS resolver.

pub mod config;
pub mod dns64;
pub mod edit;
pub mod files;
pub mod names;
pub mod probe;
pub mod rdns;
pub mod rdns_laws;
pub mod records;
pub mod status;
pub mod switch;
pub mod unbound;
pub mod unbound_laws;
