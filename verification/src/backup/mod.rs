//! Saving, checking and restoring the firewall configuration.

pub mod check;
pub mod cluster;
pub mod confirm;
pub mod convert;
pub mod current;
pub mod dhcp;
pub mod dhcp_laws;
pub mod dhcp_settings;
pub mod entities;
pub mod interfaces;
pub mod model;
pub mod plan;
pub mod plan_laws;
pub mod restore_laws;
pub mod run;
pub mod snapshot;
pub mod validate;
pub mod versions;
