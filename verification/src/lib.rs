pub mod auth;
pub mod backup;
pub mod dns_resolver;
pub mod identifiers;
pub mod ids;
pub mod json;
pub mod kv;
pub mod lists;
pub mod net;
pub mod number;
pub mod pf_conf;
pub mod plugins;
pub mod router;
pub mod routes;
pub mod server;
pub mod status;
pub mod text;
