//! The records that operators add to the resolver: host names, forwarded
//! domains and access rules.

use vstd::prelude::*;

verus! {

/// A name that the resolver answers for.
#[derive(Clone, Debug)]
pub struct HostOverride {
    pub id: String,
    pub hostname: String,
    pub domain: String,
    /// `A`, `AAAA`, `MX`, `CNAME` or `TXT`.
    pub record_type: String,
    /// The address or the target.
    pub value: String,
    pub mx_priority: Option<u16>,
    pub description: Option<String>,
    pub enabled: bool,
    pub created_at: String,
}

/// A request to add or replace a [`HostOverride`].
#[derive(Clone, Debug)]
pub struct CreateHostOverride {
    pub hostname: String,
    pub domain: String,
    pub record_type: Option<String>,
    pub value: String,
    pub mx_priority: Option<u16>,
    pub description: Option<String>,
    pub enabled: Option<bool>,
}

/// A domain whose queries go to a resolver of its own.
#[derive(Clone, Debug)]
pub struct DomainOverride {
    pub id: String,
    pub domain: String,
    /// The upstream resolver, an address with an optional port.
    pub server: String,
    pub description: Option<String>,
    pub enabled: bool,
    pub created_at: String,
}

/// A request to add or replace a [`DomainOverride`].
#[derive(Clone, Debug)]
pub struct CreateDomainOverride {
    pub domain: String,
    pub server: String,
    pub description: Option<String>,
    pub enabled: Option<bool>,
}

/// Who may query the resolver.
#[derive(Clone, Debug)]
pub struct AccessListEntry {
    pub id: String,
    /// A network in CIDR form.
    pub network: String,
    /// `allow`, `deny`, `refuse` or `allow_snoop`.
    pub action: String,
    pub description: Option<String>,
    pub created_at: String,
}

/// A request to add an [`AccessListEntry`].
#[derive(Clone, Debug)]
pub struct CreateAccessListEntry {
    pub network: String,
    pub action: String,
    pub description: Option<String>,
}

/// A name and an address that the DHCP server has bound.
#[derive(Clone, Debug)]
pub struct Lease {
    pub ip: String,
    pub hostname: String,
}

} // verus!
