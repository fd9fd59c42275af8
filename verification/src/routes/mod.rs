pub mod auth;
pub mod schedules;
pub mod shaper;
pub mod static_routes;
pub mod translations;
pub mod vpn;
