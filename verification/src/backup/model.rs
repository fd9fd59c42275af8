//! The firewall configuration as a backup holds it.
//!
//! Values whose meaning belongs to another component (what an action is, which
//! protocols there are) are carried as the text that stands for them. Where a
//! decision here depends on that component's verdict, the value carries it.

use vstd::prelude::*;

use crate::backup::dhcp::DhcpSection;
use crate::dns_resolver::config::ResolverConfig;

verus! {

/// A range of ports.
#[derive(Clone, Copy, Debug, PartialEq, Eq, Structural)]
pub struct PortRange {
    pub start: u16,
    pub end: u16,
}

/// An address that a rule can match.
#[derive(Clone, Debug)]
pub enum Address {
    Any,
    /// A host, a network or a table, in the firewall's notation.
    Literal(String),
}

/// An address in a backup: its text, and what the firewall's address parser
/// made of it, which is none where it is no address.
#[derive(Clone, Debug)]
pub struct ConfigAddress {
    pub text: String,
    pub parsed: Option<Address>,
}

/// A text in a backup with the verdict of the component that owns its meaning.
#[derive(Clone, Debug)]
pub struct Checked {
    pub text: String,
    pub valid: bool,
}

#[derive(Clone, Debug)]
pub struct RuleConfig {
    pub id: String,
    pub priority: i32,
    pub action: String,
    pub direction: String,
    pub protocol: String,
    pub interface: Option<String>,
    pub src_addr: Option<ConfigAddress>,
    pub src_port_start: Option<u16>,
    pub src_port_end: Option<u16>,
    pub dst_addr: Option<ConfigAddress>,
    pub dst_port_start: Option<u16>,
    pub dst_port_end: Option<u16>,
    pub log: bool,
    pub quick: bool,
    pub label: Option<String>,
    pub state_tracking: String,
    pub status: String,
    pub ip_version: String,
    pub src_invert: bool,
    pub dst_invert: bool,
    pub schedule_id: Option<String>,
    pub gateway: Option<String>,
}

#[derive(Clone, Debug)]
pub struct NatRuleConfig {
    pub id: String,
    pub nat_type: String,
    pub interface: String,
    pub protocol: String,
    pub src_addr: Option<ConfigAddress>,
    pub src_port_start: Option<u16>,
    pub src_port_end: Option<u16>,
    pub dst_addr: Option<ConfigAddress>,
    pub dst_port_start: Option<u16>,
    pub dst_port_end: Option<u16>,
    pub redirect_addr: ConfigAddress,
    pub redirect_port_start: Option<u16>,
    pub redirect_port_end: Option<u16>,
    pub label: Option<String>,
    pub status: String,
}

#[derive(Clone, Debug)]
pub struct AliasConfig {
    pub id: String,
    pub name: String,
    pub alias_type: Checked,
    pub entries: Vec<String>,
    pub description: Option<String>,
    pub enabled: bool,
}

#[derive(Clone, Debug)]
pub struct StaticRouteConfig {
    pub id: String,
    pub destination: String,
    pub gateway: String,
    pub interface: Option<String>,
    pub metric: i32,
    pub enabled: bool,
    pub description: Option<String>,
    pub fib: u32,
}

#[derive(Clone, Debug)]
pub struct GeoIpEntry {
    pub id: String,
    pub country: Checked,
    pub action: String,
    pub label: Option<String>,
    pub status: String,
}

#[derive(Clone, Debug)]
pub struct WireguardPeerConfig {
    pub id: String,
    pub name: String,
    pub public_key: String,
    pub preshared_key: Option<String>,
    pub endpoint: Option<String>,
    pub allowed_ips: Vec<ConfigAddress>,
    pub persistent_keepalive: Option<u16>,
}

#[derive(Clone, Debug)]
pub struct WireguardTunnelConfig {
    pub id: String,
    pub name: String,
    pub interface: String,
    pub listen_port: u16,
    pub address: ConfigAddress,
    pub address6: Option<ConfigAddress>,
    pub private_key: String,
    pub public_key: String,
    pub dns: Option<String>,
    pub mtu: Option<u16>,
    pub peers: Vec<WireguardPeerConfig>,
}

#[derive(Clone, Debug)]
pub struct IpsecSaConfig {
    pub id: String,
    pub name: String,
    pub src_addr: ConfigAddress,
    pub dst_addr: ConfigAddress,
    pub protocol: String,
    pub mode: String,
    pub enc_algo: String,
    pub auth_algo: String,
}

/// An IPsec tunnel.
#[derive(Clone, Debug)]
pub struct IpsecTunnel {
    pub id: String,
    pub name: String,
    pub enabled: bool,
    pub local_addr: String,
    pub remote_addr: String,
    pub local_id: String,
    pub remote_id: String,
    pub local_ts: Vec<String>,
    pub remote_ts: Vec<String>,
    pub auth_method: IpsecAuthMethod,
    pub psk: String,
    pub cert_source: Option<String>,
    pub acme_cert_id: Option<i64>,
    pub local_cert_pem: String,
    pub local_key_pem: String,
    pub ca_cert_pem: String,
    pub ike_proposal: String,
    pub esp_proposal: String,
    pub ike_lifetime_secs: u32,
    pub esp_lifetime_secs: u32,
    pub dpd_delay_secs: u32,
    pub start_action: String,
}

/// How the ends of a tunnel prove who they are.
#[derive(Clone, Copy, Debug, PartialEq, Eq, Structural)]
pub enum IpsecAuthMethod {
    Psk,
    Cert,
}

#[derive(Clone, Debug)]
pub struct VpnConfig {
    pub wireguard: Vec<WireguardTunnelConfig>,
    pub ipsec: Vec<IpsecSaConfig>,
    pub ipsec_tunnels: Vec<IpsecTunnel>,
}

#[derive(Clone, Debug)]
pub struct QueueConfigEntry {
    pub id: String,
    pub name: String,
    pub interface: String,
    pub queue_type: String,
    pub bandwidth_value: u64,
    pub bandwidth_unit: String,
    pub traffic_class: String,
    pub bandwidth_pct: Option<u8>,
    pub default: bool,
    pub status: String,
}

#[derive(Clone, Debug)]
pub struct RateLimitEntry {
    pub id: String,
    pub name: String,
    pub interface: Option<String>,
    pub protocol: String,
    pub dst_port_start: Option<u16>,
    pub dst_port_end: Option<u16>,
    pub max_connections: u32,
    pub window_secs: u32,
    pub overload_table: String,
    pub flush_states: bool,
    pub status: String,
}

#[derive(Clone, Debug)]
pub struct SniRuleConfig {
    pub id: String,
    pub pattern: String,
    pub action: String,
    pub label: Option<String>,
}

#[derive(Clone, Debug)]
pub struct TlsConfig {
    pub min_version: String,
    pub block_self_signed: bool,
    pub block_expired: bool,
    pub block_weak_keys: bool,
    pub blocked_ja3: Vec<String>,
    pub sni_rules: Vec<SniRuleConfig>,
}

#[derive(Clone, Debug)]
pub struct CarpVipConfig {
    pub id: String,
    pub vhid: u8,
    pub virtual_ip: String,
    pub prefix: u8,
    pub interface: String,
    pub password: String,
}

#[derive(Clone, Debug)]
pub struct PfsyncEntry {
    pub sync_interface: String,
    pub sync_peer: Option<String>,
    pub defer: bool,
}

#[derive(Clone, Debug)]
pub struct ClusterNodeConfig {
    pub id: String,
    pub name: String,
    pub address: String,
    pub role: Checked,
}

#[derive(Clone, Debug)]
pub struct HaConfig {
    pub carp_vips: Vec<CarpVipConfig>,
    pub pfsync: Option<PfsyncEntry>,
    pub nodes: Vec<ClusterNodeConfig>,
}

#[derive(Clone, Debug)]
pub struct SystemConfig {
    pub hostname: String,
    pub dns_servers: Vec<String>,
    pub wan_interface: String,
    pub lan_interface: Option<String>,
    pub lan_ip: Option<String>,
    pub api_listen: String,
    pub api_port: u16,
    pub ui_enabled: bool,
}

#[derive(Clone, Copy, Debug, PartialEq, Eq, Structural)]
pub struct AuthConfig {
    pub access_token_expiry_mins: i64,
    pub refresh_token_expiry_days: i64,
    pub require_totp: bool,
    pub require_totp_for_oauth: bool,
    pub auto_create_oauth_users: bool,
}

#[derive(Clone, Debug)]
pub struct TuningEntry {
    pub key: String,
    pub value: String,
    pub target: String,
    pub reason: String,
    pub enabled: bool,
}

/// A whole configuration.
#[derive(Clone, Debug)]
pub struct FirewallConfig {
    pub schema_version: u32,
    pub system: SystemConfig,
    pub auth: AuthConfig,
    pub rules: Vec<RuleConfig>,
    pub nat: Vec<NatRuleConfig>,
    pub queues: Vec<QueueConfigEntry>,
    pub rate_limits: Vec<RateLimitEntry>,
    pub vpn: VpnConfig,
    pub geoip: Vec<GeoIpEntry>,
    pub tls: TlsConfig,
    pub ha: HaConfig,
    pub tuning: Vec<TuningEntry>,
    pub dhcp: DhcpSection,
    pub aliases: Vec<AliasConfig>,
    pub static_routes: Vec<StaticRouteConfig>,
    /// The resolver settings; a backup from before they were part of it has none.
    pub dns_resolver: Option<ResolverConfig>,
}

/// The range that two optional bounds give: none without a start, a single
/// port without an end.
pub open spec fn range_of(start: Option<u16>, end: Option<u16>) -> Option<PortRange> {
    match (start, end) {
        (Some(s), Some(e)) => Some(PortRange { start: s, end: e }),
        (Some(s), None) => Some(PortRange { start: s, end: s }),
        _ => None,
    }
}

/// The range that two optional bounds give.
pub fn port_range(start: Option<u16>, end: Option<u16>) -> (r: Option<PortRange>)
    ensures
        r == range_of(start, end),
{
    match (start, end) {
        (Some(s), Some(e)) => Some(PortRange { start: s, end: e }),
        (Some(s), None) => Some(PortRange { start: s, end: s }),
        _ => None,
    }
}

} // verus!
