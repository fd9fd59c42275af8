//! The routes, and what each needs to be called.
//!
//! A route is a method and a path, with the names of the parts that vary in
//! braces.

use vstd::prelude::*;
use vstd::string::*;

use crate::text::{has_prefix, same};

verus! {

/// What a user may be allowed to do.
#[derive(Clone, Copy, Debug, PartialEq, Eq, Structural)]
pub enum Permission {
    RulesRead,
    RulesWrite,
    NatRead,
    NatWrite,
    VpnRead,
    VpnWrite,
    GeoipRead,
    GeoipWrite,
    IdsRead,
    IdsWrite,
    DnsWrite,
    DhcpRead,
    DhcpWrite,
    AliasesRead,
    AliasesWrite,
    InterfacesRead,
    InterfacesWrite,
    ConnectionsView,
    LogsView,
    UsersRead,
    UsersWrite,
    SettingsRead,
    SettingsWrite,
    PluginsRead,
    PluginsWrite,
    UpdatesRead,
    UpdatesInstall,
    BackupRead,
    BackupWrite,
    SystemReboot,
    ProxyRead,
    ProxyWrite,
    MultiWanRead,
    MultiWanWrite,
    DashboardView,
    DnsRead,
    HaManage,
}

/// What a route needs.
#[derive(Clone, Copy, Debug, PartialEq, Eq, Structural)]
pub enum Access {
    /// Nothing.
    Public,
    /// A user who is known.
    SignedIn,
    /// A user with the permission.
    Needs(Permission),
}

/// Routes that need no credential.
pub const PUBLIC_ROUTES: [&'static str; 6] = [
    "POST /api/v1/auth/login",
    "POST /api/v1/auth/totp/login",
    "POST /api/v1/auth/refresh",
    "GET /api/v1/auth/oauth/{provider}/authorize",
    "GET /api/v1/auth/oauth/{provider}/callback",
    "POST /api/v1/auth/register",
];

/// Routes that every user may call.
pub const SELF_SERVICE: [&'static str; 6] = [
    "POST /api/v1/auth/logout",
    "POST /api/v1/auth/totp/setup",
    "POST /api/v1/auth/totp/verify",
    "POST /api/v1/auth/totp/disable",
    "GET /api/v1/auth/me",
    "POST /api/v1/auth/ws-ticket",
];

/// Routes that need `Permission::RulesRead`.
pub const RULES_READ: [&'static str; 4] = [
    "GET /api/v1/rules",
    "GET /api/v1/rules/{id}",
    "GET /api/v1/rules/system",
    "GET /api/v1/schedules",
];

/// Routes that need `Permission::RulesWrite`.
pub const RULES_WRITE: [&'static str; 9] = [
    "POST /api/v1/rules",
    "PUT /api/v1/rules/{id}",
    "DELETE /api/v1/rules/{id}",
    "PUT /api/v1/rules/reorder",
    "POST /api/v1/rules/block-logging",
    "POST /api/v1/reload",
    "POST /api/v1/schedules",
    "PUT /api/v1/schedules/{id}",
    "DELETE /api/v1/schedules/{id}",
];

/// Routes that need `Permission::NatRead`.
pub const NAT_READ: [&'static str; 2] = [
    "GET /api/v1/nat",
    "GET /api/v1/nat/pf-output",
];

/// Routes that need `Permission::NatWrite`.
pub const NAT_WRITE: [&'static str; 4] = [
    "POST /api/v1/nat",
    "PUT /api/v1/nat/{id}",
    "DELETE /api/v1/nat/{id}",
    "PUT /api/v1/nat/reorder",
];

/// Routes that need `Permission::RulesRead`.
pub const SHAPER_READ: [&'static str; 2] = [
    "GET /api/v1/shaper/queues",
    "GET /api/v1/shaper/status",
];

/// Routes that need `Permission::RulesWrite`.
pub const SHAPER_WRITE: [&'static str; 4] = [
    "POST /api/v1/shaper/queues",
    "PUT /api/v1/shaper/queues/{id}",
    "DELETE /api/v1/shaper/queues/{id}",
    "POST /api/v1/shaper/apply",
];

/// Routes that need `Permission::VpnRead`.
pub const VPN_READ: [&'static str; 10] = [
    "GET /api/v1/vpn/wg",
    "GET /api/v1/vpn/wg/{id}/peers",
    "GET /api/v1/vpn/wg/{id}/peers/next-ip",
    "GET /api/v1/vpn/wg/{tid}/peers/{pid}/config",
    "GET /api/v1/vpn/wg/{id}/status",
    "GET /api/v1/vpn/ipsec",
    "GET /api/v1/vpn/ipsec/status",
    "GET /api/v1/vpn/ipsec/tunnels",
    "GET /api/v1/vpn/ipsec/tunnels/{id}",
    "GET /api/v1/vpn/ipsec/tunnels/{id}/status",
];

/// Routes that need `Permission::VpnWrite`.
pub const VPN_WRITE: [&'static str; 15] = [
    "POST /api/v1/vpn/wg",
    "PUT /api/v1/vpn/wg/{id}",
    "DELETE /api/v1/vpn/wg/{id}",
    "POST /api/v1/vpn/wg/{id}/start",
    "POST /api/v1/vpn/wg/{id}/stop",
    "POST /api/v1/vpn/wg/{id}/peers",
    "PUT /api/v1/vpn/wg/{tid}/peers/{pid}",
    "DELETE /api/v1/vpn/wg/{tid}/peers/{pid}",
    "POST /api/v1/vpn/ipsec",
    "DELETE /api/v1/vpn/ipsec/{id}",
    "POST /api/v1/vpn/ipsec/tunnels",
    "PUT /api/v1/vpn/ipsec/tunnels/{id}",
    "DELETE /api/v1/vpn/ipsec/tunnels/{id}",
    "POST /api/v1/vpn/ipsec/tunnels/{id}/start",
    "POST /api/v1/vpn/ipsec/tunnels/{id}/stop",
];

/// Routes that need `Permission::GeoipRead`.
pub const GEOIP_READ: [&'static str; 2] = [
    "GET /api/v1/geoip",
    "GET /api/v1/geoip/lookup/{ip}",
];

/// Routes that need `Permission::GeoipWrite`.
pub const GEOIP_WRITE: [&'static str; 3] = [
    "POST /api/v1/geoip",
    "PUT /api/v1/geoip/{id}",
    "DELETE /api/v1/geoip/{id}",
];

/// Routes that need `Permission::IdsRead`.
pub const IDS_READ: [&'static str; 11] = [
    "GET /api/v1/ids/config",
    "GET /api/v1/ids/alerts",
    "GET /api/v1/ids/alerts/{id}",
    "GET /api/v1/ids/rulesets",
    "GET /api/v1/ids/rules",
    "GET /api/v1/ids/rules/{id}",
    "GET /api/v1/ids/rules/search",
    "GET /api/v1/ids/suppressions",
    "GET /api/v1/ids/stats",
    "GET /api/v1/ids/alerts/buffer-stats",
    "GET /api/v1/ai/audit-log",
];

/// Routes that need `Permission::IdsWrite`.
pub const IDS_WRITE: [&'static str; 12] = [
    "PUT /api/v1/ids/config",
    "DELETE /api/v1/ids/alerts",
    "PUT /api/v1/ids/alerts/{id}/acknowledge",
    "PUT /api/v1/ids/alerts/{id}/classify",
    "POST /api/v1/ids/rulesets",
    "PUT /api/v1/ids/rulesets/{id}",
    "DELETE /api/v1/ids/rulesets/{id}",
    "PUT /api/v1/ids/rules/{id}",
    "POST /api/v1/ids/suppressions",
    "DELETE /api/v1/ids/suppressions/{id}",
    "POST /api/v1/ids/reload",
    "POST /api/v1/ai/analyze",
];

/// Routes that need `Permission::DnsWrite`.
pub const DNS_WRITE: [&'static str; 25] = [
    "PUT /api/v1/dns",
    "PUT /api/v1/dns/resolver/config",
    "POST /api/v1/dns/resolver/hosts",
    "PUT /api/v1/dns/resolver/hosts/{id}",
    "DELETE /api/v1/dns/resolver/hosts/{id}",
    "POST /api/v1/dns/resolver/domains",
    "PUT /api/v1/dns/resolver/domains/{id}",
    "DELETE /api/v1/dns/resolver/domains/{id}",
    "POST /api/v1/dns/resolver/acls",
    "DELETE /api/v1/dns/resolver/acls/{id}",
    "POST /api/v1/dns/resolver/apply",
    "POST /api/v1/dns/resolver/start",
    "POST /api/v1/dns/resolver/stop",
    "POST /api/v1/dns/resolver/restart",
    "POST /api/v1/dns/blocklists",
    "PUT /api/v1/dns/blocklists/{id}",
    "DELETE /api/v1/dns/blocklists/{id}",
    "POST /api/v1/dns/blocklists/{id}/refresh",
    "POST /api/v1/dns/blocklists/refresh-all",
    "PUT /api/v1/dns/blocklists/schedule",
    "PUT /api/v1/dns/blocklists/enabled",
    "POST /api/v1/dns/whitelist",
    "DELETE /api/v1/dns/whitelist/{id}",
    "POST /api/v1/dns/customblocks",
    "DELETE /api/v1/dns/customblocks/{id}",
];

/// Routes that need `Permission::DhcpRead`.
pub const DHCP_READ: [&'static str; 11] = [
    "GET /api/v1/dhcp/status",
    "GET /api/v1/dhcp/v4/config",
    "GET /api/v1/dhcp/v4/subnets",
    "GET /api/v1/dhcp/v4/reservations",
    "GET /api/v1/dhcp/v4/leases",
    "GET /api/v1/dhcp/ddns",
    "GET /api/v1/dhcp/ha/config",
    "GET /api/v1/dhcp/ha/status",
    "GET /api/v1/dhcp/pool-stats",
    "GET /api/v1/dhcp/metrics",
    "GET /api/v1/dhcp/logs",
];

/// Routes that need `Permission::DhcpWrite`.
pub const DHCP_WRITE: [&'static str; 14] = [
    "POST /api/v1/dhcp/start",
    "POST /api/v1/dhcp/stop",
    "POST /api/v1/dhcp/restart",
    "PUT /api/v1/dhcp/v4/config",
    "POST /api/v1/dhcp/v4/subnets",
    "PUT /api/v1/dhcp/v4/subnets/{id}",
    "DELETE /api/v1/dhcp/v4/subnets/{id}",
    "POST /api/v1/dhcp/v4/reservations",
    "PUT /api/v1/dhcp/v4/reservations/{id}",
    "DELETE /api/v1/dhcp/v4/reservations/{id}",
    "DELETE /api/v1/dhcp/v4/leases/{ip}",
    "POST /api/v1/dhcp/v4/apply",
    "PUT /api/v1/dhcp/ddns",
    "PUT /api/v1/dhcp/ha/config",
];

/// Routes that need `Permission::AliasesRead`.
pub const ALIASES_READ: [&'static str; 2] = [
    "GET /api/v1/aliases",
    "GET /api/v1/aliases/{id}",
];

/// Routes that need `Permission::AliasesWrite`.
pub const ALIASES_WRITE: [&'static str; 3] = [
    "POST /api/v1/aliases",
    "PUT /api/v1/aliases/{id}",
    "DELETE /api/v1/aliases/{id}",
];

/// Routes that need `Permission::InterfacesRead`.
pub const IFACES_READ: [&'static str; 7] = [
    "GET /api/v1/interfaces",
    "GET /api/v1/interfaces/detailed",
    "GET /api/v1/interfaces/roles",
    "GET /api/v1/interfaces/{name}/stats",
    "GET /api/v1/vlans",
    "GET /api/v1/routes",
    "GET /api/v1/routes/system",
];

/// Routes that need `Permission::InterfacesWrite`.
pub const IFACES_WRITE: [&'static str; 9] = [
    "PUT /api/v1/interfaces/{name}/role",
    "DELETE /api/v1/interfaces/{name}/role",
    "PUT /api/v1/interfaces/config/{name}",
    "POST /api/v1/vlans",
    "PUT /api/v1/vlans/{id}",
    "DELETE /api/v1/vlans/{id}",
    "POST /api/v1/routes",
    "PUT /api/v1/routes/{id}",
    "DELETE /api/v1/routes/{id}",
];

/// Routes that need `Permission::ConnectionsView`.
pub const CONNECTIONS_VIEW: [&'static str; 2] = [
    "GET /api/v1/connections",
    "GET /api/v1/blocked",
];

/// Routes that need `Permission::LogsView`.
pub const LOGS_VIEW: [&'static str; 1] = [
    "GET /api/v1/logs",
];

/// Routes that need `Permission::UsersRead`.
pub const USERS_READ: [&'static str; 5] = [
    "GET /api/v1/auth/users",
    "GET /api/v1/auth/users/{id}",
    "GET /api/v1/auth/audit",
    "GET /api/v1/auth/roles",
    "GET /api/v1/auth/permissions",
];

/// Routes that need `Permission::UsersWrite`.
pub const USERS_WRITE: [&'static str; 7] = [
    "POST /api/v1/auth/users",
    "PUT /api/v1/auth/users/{id}",
    "DELETE /api/v1/auth/users/{id}",
    "POST /api/v1/auth/api-keys",
    "POST /api/v1/auth/roles",
    "PUT /api/v1/auth/roles/{id}",
    "DELETE /api/v1/auth/roles/{id}",
];

/// Routes that need `Permission::SettingsRead`.
pub const SETTINGS_READ: [&'static str; 28] = [
    "GET /api/v1/auth/settings",
    "GET /api/v1/auth/oauth/providers",
    "GET /api/v1/settings/tls",
    "GET /api/v1/settings/valkey",
    "GET /api/v1/settings/dashboard-history",
    "GET /api/v1/settings/ids-alerts",
    "GET /api/v1/settings/pf-tuning",
    "GET /api/v1/settings/{section}",
    "GET /api/v1/settings/ai",
    "GET /api/v1/settings/ai/models",
    "GET /api/v1/ca",
    "GET /api/v1/ca/cert.pem",
    "GET /api/v1/ca/crl",
    "GET /api/v1/ca/certs",
    "GET /api/v1/ca/certs/{id}",
    "GET /api/v1/ca/certs/{id}/cert.pem",
    "GET /api/v1/time/status",
    "GET /api/v1/time/config",
    "GET /api/v1/time/sources",
    "GET /api/v1/time/logs",
    "GET /api/v1/acme/account",
    "GET /api/v1/acme/certs",
    "GET /api/v1/acme/certs/{id}",
    "GET /api/v1/acme/certs/{id}/cert.pem",
    "GET /api/v1/acme/dns-providers",
    "GET /api/v1/acme/certs/{cert_id}/targets",
    "GET /api/v1/ddns/records",
    "GET /api/v1/ddns/config",
];

/// Routes that need `Permission::SettingsWrite`.
pub const SETTINGS_WRITE: [&'static str; 41] = [
    "PUT /api/v1/auth/settings",
    "POST /api/v1/auth/oauth/providers",
    "DELETE /api/v1/auth/oauth/providers/{id}",
    "PUT /api/v1/settings/tls",
    "PUT /api/v1/settings/valkey",
    "PUT /api/v1/settings/dashboard-history",
    "PUT /api/v1/settings/ids-alerts",
    "PUT /api/v1/settings/pf-tuning",
    "PUT /api/v1/settings/{section}",
    "PUT /api/v1/settings/ai",
    "POST /api/v1/settings/ai/test",
    "POST /api/v1/ca",
    "POST /api/v1/ca/certs",
    "DELETE /api/v1/ca/certs/{id}",
    "GET /api/v1/ca/certs/{id}/key.pem",
    "POST /api/v1/ca/certs/{id}/revoke",
    "PUT /api/v1/time/config",
    "POST /api/v1/time/sources",
    "PUT /api/v1/time/sources/{id}",
    "DELETE /api/v1/time/sources/{id}",
    "POST /api/v1/time/start",
    "POST /api/v1/time/stop",
    "POST /api/v1/time/restart",
    "POST /api/v1/time/apply",
    "PUT /api/v1/acme/account",
    "POST /api/v1/acme/certs",
    "DELETE /api/v1/acme/certs/{id}",
    "POST /api/v1/acme/certs/{id}/renew",
    "POST /api/v1/acme/certs/{id}/publish",
    "GET /api/v1/acme/certs/{id}/key.pem",
    "POST /api/v1/acme/dns-providers",
    "PUT /api/v1/acme/dns-providers/{id}",
    "DELETE /api/v1/acme/dns-providers/{id}",
    "POST /api/v1/acme/dns-providers/{id}/test",
    "POST /api/v1/acme/certs/{cert_id}/targets",
    "DELETE /api/v1/acme/export-targets/{id}",
    "POST /api/v1/ddns/records",
    "PUT /api/v1/ddns/records/{id}",
    "DELETE /api/v1/ddns/records/{id}",
    "POST /api/v1/ddns/records/{id}/update",
    "PUT /api/v1/ddns/config",
];

/// Routes that need `Permission::PluginsRead`.
pub const PLUGINS_READ: [&'static str; 4] = [
    "GET /api/v1/plugins",
    "GET /api/v1/plugins/{name}/logs",
    "GET /api/v1/plugins/{name}/config",
    "GET /api/v1/plugins/discover",
];

/// Routes that need `Permission::PluginsWrite`.
pub const PLUGINS_WRITE: [&'static str; 2] = [
    "POST /api/v1/plugins/toggle",
    "PUT /api/v1/plugins/{name}/config",
];

/// Routes that need `Permission::UpdatesRead`.
pub const UPDATES_READ: [&'static str; 6] = [
    "GET /api/v1/updates/status",
    "POST /api/v1/updates/check",
    "GET /api/v1/updates/schedule",
    "GET /api/v1/updates/history",
    "GET /api/v1/updates/aifw/status",
    "POST /api/v1/updates/aifw/check",
];

/// Routes that need `Permission::UpdatesInstall`.
pub const UPDATES_INSTALL: [&'static str; 7] = [
    "POST /api/v1/updates/install",
    "PUT /api/v1/updates/schedule",
    "POST /api/v1/updates/aifw/install",
    "POST /api/v1/updates/aifw/rollback",
    "POST /api/v1/updates/aifw/restart",
    "POST /api/v1/updates/aifw/reboot",
    "POST /api/v1/updates/aifw/prerelease",
];

/// The upload of an update; it may be large.
pub const UPDATES_INSTALL_LOCAL: [&'static str; 1] = [
    "POST /api/v1/updates/aifw/install-local",
];

/// Routes that need `Permission::BackupRead`.
pub const BACKUP_READ: [&'static str; 13] = [
    "GET /api/v1/config/history",
    "GET /api/v1/config/version",
    "GET /api/v1/config/diff",
    "GET /api/v1/config/check",
    "GET /api/v1/config/export",
    "POST /api/v1/config/preview-opnsense",
    "POST /api/v1/config/import-preview",
    "GET /api/v1/config/restore-preview",
    "GET /api/v1/config/commit-confirm/status",
    "GET /api/v1/config/retention",
    "GET /api/v1/backup/s3/config",
    "GET /api/v1/backup/s3/list",
    "GET /api/v1/notify/smtp/config",
];

/// Routes that need `Permission::BackupWrite`.
pub const BACKUP_WRITE: [&'static str; 12] = [
    "POST /api/v1/config/import",
    "POST /api/v1/config/restore",
    "POST /api/v1/config/import-opnsense",
    "POST /api/v1/config/save",
    "POST /api/v1/config/commit-confirm",
    "POST /api/v1/config/commit-confirm/confirm",
    "PUT /api/v1/config/retention",
    "PUT /api/v1/backup/s3/config",
    "POST /api/v1/backup/s3/test",
    "POST /api/v1/backup/s3/import",
    "PUT /api/v1/notify/smtp/config",
    "POST /api/v1/notify/smtp/test",
];

/// Routes that need `Permission::SettingsRead`.
pub const SYSTEM_READ: [&'static str; 6] = [
    "GET /api/v1/system/general",
    "GET /api/v1/system/banner",
    "GET /api/v1/system/ssh",
    "GET /api/v1/system/console",
    "GET /api/v1/system/info",
    "GET /api/v1/system/timezones",
];

/// Routes that need `Permission::SettingsWrite`.
pub const SYSTEM_WRITE: [&'static str; 4] = [
    "PUT /api/v1/system/general",
    "PUT /api/v1/system/banner",
    "PUT /api/v1/system/ssh",
    "PUT /api/v1/system/console",
];

/// Routes that need `Permission::SystemReboot`.
pub const SYSTEM_REBOOT: [&'static str; 3] = [
    "POST /api/v1/updates/reboot",
    "POST /api/v1/updates/shutdown",
    "POST /api/v1/multiwan/enable-fibs",
];

/// Routes that need `Permission::ProxyRead`.
pub const PROXY_READ: [&'static str; 14] = [
    "GET /api/v1/reverse-proxy/status",
    "GET /api/v1/reverse-proxy/config",
    "GET /api/v1/reverse-proxy/logs",
    "GET /api/v1/reverse-proxy/entrypoints",
    "GET /api/v1/reverse-proxy/http/routers",
    "GET /api/v1/reverse-proxy/http/services",
    "GET /api/v1/reverse-proxy/http/middlewares",
    "GET /api/v1/reverse-proxy/tcp/routers",
    "GET /api/v1/reverse-proxy/tcp/services",
    "GET /api/v1/reverse-proxy/udp/routers",
    "GET /api/v1/reverse-proxy/udp/services",
    "GET /api/v1/reverse-proxy/tls/certs",
    "GET /api/v1/reverse-proxy/tls/options",
    "GET /api/v1/reverse-proxy/cert-resolvers",
];

/// Routes that need `Permission::ProxyWrite`.
pub const PROXY_WRITE: [&'static str; 39] = [
    "PUT /api/v1/reverse-proxy/config",
    "POST /api/v1/reverse-proxy/validate",
    "POST /api/v1/reverse-proxy/entrypoints",
    "PUT /api/v1/reverse-proxy/entrypoints/{id}",
    "DELETE /api/v1/reverse-proxy/entrypoints/{id}",
    "POST /api/v1/reverse-proxy/http/routers",
    "PUT /api/v1/reverse-proxy/http/routers/{id}",
    "DELETE /api/v1/reverse-proxy/http/routers/{id}",
    "POST /api/v1/reverse-proxy/http/services",
    "PUT /api/v1/reverse-proxy/http/services/{id}",
    "DELETE /api/v1/reverse-proxy/http/services/{id}",
    "POST /api/v1/reverse-proxy/http/middlewares",
    "PUT /api/v1/reverse-proxy/http/middlewares/{id}",
    "DELETE /api/v1/reverse-proxy/http/middlewares/{id}",
    "POST /api/v1/reverse-proxy/tcp/routers",
    "PUT /api/v1/reverse-proxy/tcp/routers/{id}",
    "DELETE /api/v1/reverse-proxy/tcp/routers/{id}",
    "POST /api/v1/reverse-proxy/tcp/services",
    "PUT /api/v1/reverse-proxy/tcp/services/{id}",
    "DELETE /api/v1/reverse-proxy/tcp/services/{id}",
    "POST /api/v1/reverse-proxy/udp/routers",
    "PUT /api/v1/reverse-proxy/udp/routers/{id}",
    "DELETE /api/v1/reverse-proxy/udp/routers/{id}",
    "POST /api/v1/reverse-proxy/udp/services",
    "PUT /api/v1/reverse-proxy/udp/services/{id}",
    "DELETE /api/v1/reverse-proxy/udp/services/{id}",
    "POST /api/v1/reverse-proxy/tls/certs",
    "PUT /api/v1/reverse-proxy/tls/certs/{id}",
    "DELETE /api/v1/reverse-proxy/tls/certs/{id}",
    "POST /api/v1/reverse-proxy/tls/options",
    "PUT /api/v1/reverse-proxy/tls/options/{id}",
    "DELETE /api/v1/reverse-proxy/tls/options/{id}",
    "POST /api/v1/reverse-proxy/cert-resolvers",
    "PUT /api/v1/reverse-proxy/cert-resolvers/{id}",
    "DELETE /api/v1/reverse-proxy/cert-resolvers/{id}",
    "POST /api/v1/reverse-proxy/start",
    "POST /api/v1/reverse-proxy/stop",
    "POST /api/v1/reverse-proxy/restart",
    "POST /api/v1/reverse-proxy/apply",
];

/// Routes that need `Permission::MultiWanRead`.
pub const MULTIWAN_READ: [&'static str; 15] = [
    "GET /api/v1/multiwan/instances",
    "GET /api/v1/multiwan/instances/{id}",
    "GET /api/v1/multiwan/instances/{id}/members",
    "GET /api/v1/multiwan/fibs",
    "GET /api/v1/multiwan/gateways",
    "GET /api/v1/multiwan/gateways/{id}",
    "GET /api/v1/multiwan/gateways/{id}/events",
    "GET /api/v1/multiwan/groups",
    "GET /api/v1/multiwan/groups/{id}/members",
    "GET /api/v1/multiwan/groups/{id}/active",
    "GET /api/v1/multiwan/policies",
    "GET /api/v1/multiwan/leaks",
    "GET /api/v1/multiwan/flows",
    "GET /api/v1/multiwan/gateways/{id}/sla",
    "GET /api/v1/multiwan/config.yaml",
];

/// Routes that need `Permission::MultiWanWrite`.
pub const MULTIWAN_WRITE: [&'static str; 27] = [
    "POST /api/v1/multiwan/instances",
    "PUT /api/v1/multiwan/instances/{id}",
    "DELETE /api/v1/multiwan/instances/{id}",
    "POST /api/v1/multiwan/instances/{id}/members",
    "DELETE /api/v1/multiwan/instances/{id}/members/{iface}",
    "POST /api/v1/multiwan/gateways",
    "PUT /api/v1/multiwan/gateways/{id}",
    "DELETE /api/v1/multiwan/gateways/{id}",
    "POST /api/v1/multiwan/gateways/{id}/probe-now",
    "POST /api/v1/multiwan/groups",
    "PUT /api/v1/multiwan/groups/{id}",
    "DELETE /api/v1/multiwan/groups/{id}",
    "POST /api/v1/multiwan/groups/{id}/members",
    "DELETE /api/v1/multiwan/groups/{id}/members/{gw}",
    "POST /api/v1/multiwan/policies",
    "PUT /api/v1/multiwan/policies/{id}",
    "DELETE /api/v1/multiwan/policies/{id}",
    "POST /api/v1/multiwan/apply",
    "PUT /api/v1/multiwan/policies/reorder",
    "POST /api/v1/multiwan/policies/{id}/duplicate",
    "PUT /api/v1/multiwan/policies/{id}/toggle",
    "POST /api/v1/multiwan/leaks",
    "DELETE /api/v1/multiwan/leaks/{id}",
    "POST /api/v1/multiwan/leaks/seed-mgmt",
    "POST /api/v1/multiwan/preview",
    "POST /api/v1/multiwan/flows/{label}/migrate",
    "POST /api/v1/multiwan/apply-yaml",
];

/// Routes that need `Permission::DashboardView`.
pub const DASHBOARD_VIEW: [&'static str; 8] = [
    "GET /api/v1/status",
    "GET /api/v1/about",
    "GET /api/v1/metrics",
    "GET /api/v1/metrics/list",
    "GET /api/v1/metrics/series",
    "GET /api/v1/ws",
    "GET /api/v1/pending/stream",
    "GET /api/v1/pending",
];

/// Routes that need `Permission::DnsRead`.
pub const DNS_READ: [&'static str; 14] = [
    "GET /api/v1/dns",
    "GET /api/v1/dns/resolver/status",
    "GET /api/v1/dns/resolver/config",
    "GET /api/v1/dns/resolver/hosts",
    "GET /api/v1/dns/resolver/domains",
    "GET /api/v1/dns/resolver/acls",
    "GET /api/v1/dns/resolver/logs",
    "GET /api/v1/dns/blocklists",
    "GET /api/v1/dns/blocklists/{id}",
    "GET /api/v1/dns/blocklists/schedule",
    "GET /api/v1/dns/whitelist",
    "GET /api/v1/dns/customblocks",
    "GET /api/v1/dns/stats",
    "GET /api/v1/dns/stream",
];

/// Routes by which another node of the cluster pushes to this one. They need
/// `Permission::HaManage`, and the key of a node besides.
pub const CLUSTER: [&'static str; 2] = ["PUT /api/v1/cluster/snapshot", "POST /api/v1/cluster/cert-push"];

/// The streams: a page of another site must not open them.
pub const STREAMS: [&'static str; 3] = ["GET /api/v1/ws", "GET /api/v1/pending/stream", "GET /api/v1/dns/stream"];

/// The largest body of a request, in bytes.
pub const BODY_LIMIT: u64 = 10_485_760;

/// The routes that take the configuration of another firewall.
pub const FOREIGN_CONFIGS: [&'static str; 2] = [
    "POST /api/v1/config/preview-opnsense",
    "POST /api/v1/config/import-opnsense",
];

/// The largest configuration of another firewall, in bytes.
pub const FOREIGN_CONFIG_LIMIT: u64 = 15_728_640;

/// The largest upload of an update, in bytes.
pub const UPLOAD_LIMIT: u64 = 524_288_000;

/// The route is in the table.
pub open spec fn listed(table: Seq<&'static str>, route: Seq<char>) -> bool {
    exists|i: int| 0 <= i < table.len() && (#[trigger] table[i])@ == route
}

fn is_listed(table: &[&'static str], route: &str) -> (r: bool)
    ensures
        r == listed(table@, route@),
{
    let mut i: usize = 0;
    while i < table.len()
        invariant
            i <= table@.len(),
            forall|k: int| 0 <= k < i ==> (#[trigger] table@[k])@ != route@,
        decreases table.len() - i,
    {
        if same(table[i], route) {
            assert(table@[i as int]@ == route@);
            return true;
        }
        i = i + 1;
    }
    false
}

/// What a route needs; nothing is known of a route in none of the tables.
pub open spec fn access_of(route: Seq<char>) -> Option<Access> {
    if listed(PUBLIC_ROUTES@, route) {
        Some(Access::Public)
    } else if listed(SELF_SERVICE@, route) {
        Some(Access::SignedIn)
    } else if listed(RULES_READ@, route) {
        Some(Access::Needs(Permission::RulesRead))
    } else if listed(RULES_WRITE@, route) {
        Some(Access::Needs(Permission::RulesWrite))
    } else if listed(NAT_READ@, route) {
        Some(Access::Needs(Permission::NatRead))
    } else if listed(NAT_WRITE@, route) {
        Some(Access::Needs(Permission::NatWrite))
    } else if listed(SHAPER_READ@, route) {
        Some(Access::Needs(Permission::RulesRead))
    } else if listed(SHAPER_WRITE@, route) {
        Some(Access::Needs(Permission::RulesWrite))
    } else if listed(VPN_READ@, route) {
        Some(Access::Needs(Permission::VpnRead))
    } else if listed(VPN_WRITE@, route) {
        Some(Access::Needs(Permission::VpnWrite))
    } else if listed(GEOIP_READ@, route) {
        Some(Access::Needs(Permission::GeoipRead))
    } else if listed(GEOIP_WRITE@, route) {
        Some(Access::Needs(Permission::GeoipWrite))
    } else if listed(IDS_READ@, route) {
        Some(Access::Needs(Permission::IdsRead))
    } else if listed(IDS_WRITE@, route) {
        Some(Access::Needs(Permission::IdsWrite))
    } else if listed(DNS_WRITE@, route) {
        Some(Access::Needs(Permission::DnsWrite))
    } else if listed(DHCP_READ@, route) {
        Some(Access::Needs(Permission::DhcpRead))
    } else if listed(DHCP_WRITE@, route) {
        Some(Access::Needs(Permission::DhcpWrite))
    } else if listed(ALIASES_READ@, route) {
        Some(Access::Needs(Permission::AliasesRead))
    } else if listed(ALIASES_WRITE@, route) {
        Some(Access::Needs(Permission::AliasesWrite))
    } else if listed(IFACES_READ@, route) {
        Some(Access::Needs(Permission::InterfacesRead))
    } else if listed(IFACES_WRITE@, route) {
        Some(Access::Needs(Permission::InterfacesWrite))
    } else if listed(CONNECTIONS_VIEW@, route) {
        Some(Access::Needs(Permission::ConnectionsView))
    } else if listed(LOGS_VIEW@, route) {
        Some(Access::Needs(Permission::LogsView))
    } else if listed(USERS_READ@, route) {
        Some(Access::Needs(Permission::UsersRead))
    } else if listed(USERS_WRITE@, route) {
        Some(Access::Needs(Permission::UsersWrite))
    } else if listed(SETTINGS_READ@, route) {
        Some(Access::Needs(Permission::SettingsRead))
    } else if listed(SETTINGS_WRITE@, route) {
        Some(Access::Needs(Permission::SettingsWrite))
    } else if listed(PLUGINS_READ@, route) {
        Some(Access::Needs(Permission::PluginsRead))
    } else if listed(PLUGINS_WRITE@, route) {
        Some(Access::Needs(Permission::PluginsWrite))
    } else if listed(UPDATES_READ@, route) {
        Some(Access::Needs(Permission::UpdatesRead))
    } else if listed(UPDATES_INSTALL@, route) {
        Some(Access::Needs(Permission::UpdatesInstall))
    } else if listed(UPDATES_INSTALL_LOCAL@, route) {
        Some(Access::Needs(Permission::UpdatesInstall))
    } else if listed(BACKUP_READ@, route) {
        Some(Access::Needs(Permission::BackupRead))
    } else if listed(BACKUP_WRITE@, route) {
        Some(Access::Needs(Permission::BackupWrite))
    } else if listed(SYSTEM_READ@, route) {
        Some(Access::Needs(Permission::SettingsRead))
    } else if listed(SYSTEM_WRITE@, route) {
        Some(Access::Needs(Permission::SettingsWrite))
    } else if listed(SYSTEM_REBOOT@, route) {
        Some(Access::Needs(Permission::SystemReboot))
    } else if listed(PROXY_READ@, route) {
        Some(Access::Needs(Permission::ProxyRead))
    } else if listed(PROXY_WRITE@, route) {
        Some(Access::Needs(Permission::ProxyWrite))
    } else if listed(MULTIWAN_READ@, route) {
        Some(Access::Needs(Permission::MultiWanRead))
    } else if listed(MULTIWAN_WRITE@, route) {
        Some(Access::Needs(Permission::MultiWanWrite))
    } else if listed(DASHBOARD_VIEW@, route) {
        Some(Access::Needs(Permission::DashboardView))
    } else if listed(DNS_READ@, route) {
        Some(Access::Needs(Permission::DnsRead))
    } else if listed(CLUSTER@, route) {
        Some(Access::Needs(Permission::HaManage))
    } else {
        None
    }
}

/// What a route needs to be called.
pub fn route_access(route: &str) -> (r: Option<Access>)
    ensures
        r == access_of(route@),
{
    if is_listed(PUBLIC_ROUTES.as_slice(), route) {
        Some(Access::Public)
    } else if is_listed(SELF_SERVICE.as_slice(), route) {
        Some(Access::SignedIn)
    } else if is_listed(RULES_READ.as_slice(), route) {
        Some(Access::Needs(Permission::RulesRead))
    } else if is_listed(RULES_WRITE.as_slice(), route) {
        Some(Access::Needs(Permission::RulesWrite))
    } else if is_listed(NAT_READ.as_slice(), route) {
        Some(Access::Needs(Permission::NatRead))
    } else if is_listed(NAT_WRITE.as_slice(), route) {
        Some(Access::Needs(Permission::NatWrite))
    } else if is_listed(SHAPER_READ.as_slice(), route) {
        Some(Access::Needs(Permission::RulesRead))
    } else if is_listed(SHAPER_WRITE.as_slice(), route) {
        Some(Access::Needs(Permission::RulesWrite))
    } else if is_listed(VPN_READ.as_slice(), route) {
        Some(Access::Needs(Permission::VpnRead))
    } else if is_listed(VPN_WRITE.as_slice(), route) {
        Some(Access::Needs(Permission::VpnWrite))
    } else if is_listed(GEOIP_READ.as_slice(), route) {
        Some(Access::Needs(Permission::GeoipRead))
    } else if is_listed(GEOIP_WRITE.as_slice(), route) {
        Some(Access::Needs(Permission::GeoipWrite))
    } else if is_listed(IDS_READ.as_slice(), route) {
        Some(Access::Needs(Permission::IdsRead))
    } else if is_listed(IDS_WRITE.as_slice(), route) {
        Some(Access::Needs(Permission::IdsWrite))
    } else if is_listed(DNS_WRITE.as_slice(), route) {
        Some(Access::Needs(Permission::DnsWrite))
    } else if is_listed(DHCP_READ.as_slice(), route) {
        Some(Access::Needs(Permission::DhcpRead))
    } else if is_listed(DHCP_WRITE.as_slice(), route) {
        Some(Access::Needs(Permission::DhcpWrite))
    } else if is_listed(ALIASES_READ.as_slice(), route) {
        Some(Access::Needs(Permission::AliasesRead))
    } else if is_listed(ALIASES_WRITE.as_slice(), route) {
        Some(Access::Needs(Permission::AliasesWrite))
    } else if is_listed(IFACES_READ.as_slice(), route) {
        Some(Access::Needs(Permission::InterfacesRead))
    } else if is_listed(IFACES_WRITE.as_slice(), route) {
        Some(Access::Needs(Permission::InterfacesWrite))
    } else if is_listed(CONNECTIONS_VIEW.as_slice(), route) {
        Some(Access::Needs(Permission::ConnectionsView))
    } else if is_listed(LOGS_VIEW.as_slice(), route) {
        Some(Access::Needs(Permission::LogsView))
    } else if is_listed(USERS_READ.as_slice(), route) {
        Some(Access::Needs(Permission::UsersRead))
    } else if is_listed(USERS_WRITE.as_slice(), route) {
        Some(Access::Needs(Permission::UsersWrite))
    } else if is_listed(SETTINGS_READ.as_slice(), route) {
        Some(Access::Needs(Permission::SettingsRead))
    } else if is_listed(SETTINGS_WRITE.as_slice(), route) {
        Some(Access::Needs(Permission::SettingsWrite))
    } else if is_listed(PLUGINS_READ.as_slice(), route) {
        Some(Access::Needs(Permission::PluginsRead))
    } else if is_listed(PLUGINS_WRITE.as_slice(), route) {
        Some(Access::Needs(Permission::PluginsWrite))
    } else if is_listed(UPDATES_READ.as_slice(), route) {
        Some(Access::Needs(Permission::UpdatesRead))
    } else if is_listed(UPDATES_INSTALL.as_slice(), route) {
        Some(Access::Needs(Permission::UpdatesInstall))
    } else if is_listed(UPDATES_INSTALL_LOCAL.as_slice(), route) {
        Some(Access::Needs(Permission::UpdatesInstall))
    } else if is_listed(BACKUP_READ.as_slice(), route) {
        Some(Access::Needs(Permission::BackupRead))
    } else if is_listed(BACKUP_WRITE.as_slice(), route) {
        Some(Access::Needs(Permission::BackupWrite))
    } else if is_listed(SYSTEM_READ.as_slice(), route) {
        Some(Access::Needs(Permission::SettingsRead))
    } else if is_listed(SYSTEM_WRITE.as_slice(), route) {
        Some(Access::Needs(Permission::SettingsWrite))
    } else if is_listed(SYSTEM_REBOOT.as_slice(), route) {
        Some(Access::Needs(Permission::SystemReboot))
    } else if is_listed(PROXY_READ.as_slice(), route) {
        Some(Access::Needs(Permission::ProxyRead))
    } else if is_listed(PROXY_WRITE.as_slice(), route) {
        Some(Access::Needs(Permission::ProxyWrite))
    } else if is_listed(MULTIWAN_READ.as_slice(), route) {
        Some(Access::Needs(Permission::MultiWanRead))
    } else if is_listed(MULTIWAN_WRITE.as_slice(), route) {
        Some(Access::Needs(Permission::MultiWanWrite))
    } else if is_listed(DASHBOARD_VIEW.as_slice(), route) {
        Some(Access::Needs(Permission::DashboardView))
    } else if is_listed(DNS_READ.as_slice(), route) {
        Some(Access::Needs(Permission::DnsRead))
    } else if is_listed(CLUSTER.as_slice(), route) {
        Some(Access::Needs(Permission::HaManage))
    } else {
        None
    }
}

/// How large the body of a request on the route may be.
pub fn body_limit(route: &str) -> (r: u64)
    ensures
        r == (if listed(UPDATES_INSTALL_LOCAL@, route@) {
            UPLOAD_LIMIT
        } else if listed(FOREIGN_CONFIGS@, route@) {
            FOREIGN_CONFIG_LIMIT
        } else {
            BODY_LIMIT
        }),
{
    if is_listed(UPDATES_INSTALL_LOCAL.as_slice(), route) {
        UPLOAD_LIMIT
    } else if is_listed(FOREIGN_CONFIGS.as_slice(), route) {
        FOREIGN_CONFIG_LIMIT
    } else {
        BODY_LIMIT
    }
}

/// Whether only a node of the cluster may call the route.
pub fn nodes_only(route: &str) -> (r: bool)
    ensures
        r == listed(CLUSTER@, route@),
{
    is_listed(CLUSTER.as_slice(), route)
}

/// Whether the origin of a request on the route is checked.
pub fn checks_origin(route: &str) -> (r: bool)
    ensures
        r == listed(STREAMS@, route@),
{
    is_listed(STREAMS.as_slice(), route)
}

// ---------------------------------------------------------------------------
// Laws
// ---------------------------------------------------------------------------

/// What a permission opens stands in a table of that permission, what is open to everybody
/// in the table of what is, and what is open to whoever is signed in in the table of that.
pub proof fn permissions_open_their_own_routes(route: Seq<char>)
    ensures
        access_of(route) == Some(Access::Public) ==> listed(PUBLIC_ROUTES@, route),
        access_of(route) == Some(Access::SignedIn) ==> listed(SELF_SERVICE@, route),
        access_of(route) == Some(Access::Needs(Permission::RulesRead)) ==> listed(RULES_READ@, route)
            || listed(SHAPER_READ@, route),
        access_of(route) == Some(Access::Needs(Permission::RulesWrite)) ==> listed(RULES_WRITE@, route)
            || listed(SHAPER_WRITE@, route),
        access_of(route) == Some(Access::Needs(Permission::NatRead)) ==> listed(NAT_READ@, route),
        access_of(route) == Some(Access::Needs(Permission::NatWrite)) ==> listed(NAT_WRITE@, route),
        access_of(route) == Some(Access::Needs(Permission::VpnRead)) ==> listed(VPN_READ@, route),
        access_of(route) == Some(Access::Needs(Permission::VpnWrite)) ==> listed(VPN_WRITE@, route),
        access_of(route) == Some(Access::Needs(Permission::GeoipRead)) ==> listed(GEOIP_READ@, route),
        access_of(route) == Some(Access::Needs(Permission::GeoipWrite)) ==> listed(GEOIP_WRITE@, route),
        access_of(route) == Some(Access::Needs(Permission::IdsRead)) ==> listed(IDS_READ@, route),
        access_of(route) == Some(Access::Needs(Permission::IdsWrite)) ==> listed(IDS_WRITE@, route),
        access_of(route) == Some(Access::Needs(Permission::DnsWrite)) ==> listed(DNS_WRITE@, route),
        access_of(route) == Some(Access::Needs(Permission::DhcpRead)) ==> listed(DHCP_READ@, route),
        access_of(route) == Some(Access::Needs(Permission::DhcpWrite)) ==> listed(DHCP_WRITE@, route),
        access_of(route) == Some(Access::Needs(Permission::AliasesRead)) ==> listed(ALIASES_READ@, route),
        access_of(route) == Some(Access::Needs(Permission::AliasesWrite)) ==> listed(ALIASES_WRITE@, route),
        access_of(route) == Some(Access::Needs(Permission::InterfacesRead)) ==> listed(IFACES_READ@, route),
        access_of(route) == Some(Access::Needs(Permission::InterfacesWrite)) ==> listed(IFACES_WRITE@, route),
        access_of(route) == Some(Access::Needs(Permission::ConnectionsView)) ==> listed(CONNECTIONS_VIEW@, route),
        access_of(route) == Some(Access::Needs(Permission::LogsView)) ==> listed(LOGS_VIEW@, route),
        access_of(route) == Some(Access::Needs(Permission::UsersRead)) ==> listed(USERS_READ@, route),
        access_of(route) == Some(Access::Needs(Permission::UsersWrite)) ==> listed(USERS_WRITE@, route),
        access_of(route) == Some(Access::Needs(Permission::SettingsRead)) ==> listed(SETTINGS_READ@, route)
            || listed(SYSTEM_READ@, route),
        access_of(route) == Some(Access::Needs(Permission::SettingsWrite)) ==> listed(SETTINGS_WRITE@, route)
            || listed(SYSTEM_WRITE@, route),
        access_of(route) == Some(Access::Needs(Permission::PluginsRead)) ==> listed(PLUGINS_READ@, route),
        access_of(route) == Some(Access::Needs(Permission::PluginsWrite)) ==> listed(PLUGINS_WRITE@, route),
        access_of(route) == Some(Access::Needs(Permission::UpdatesRead)) ==> listed(UPDATES_READ@, route),
        access_of(route) == Some(Access::Needs(Permission::UpdatesInstall)) ==> listed(UPDATES_INSTALL@, route)
            || listed(UPDATES_INSTALL_LOCAL@, route),
        access_of(route) == Some(Access::Needs(Permission::BackupRead)) ==> listed(BACKUP_READ@, route),
        access_of(route) == Some(Access::Needs(Permission::BackupWrite)) ==> listed(BACKUP_WRITE@, route),
        access_of(route) == Some(Access::Needs(Permission::SystemReboot)) ==> listed(SYSTEM_REBOOT@, route),
        access_of(route) == Some(Access::Needs(Permission::ProxyRead)) ==> listed(PROXY_READ@, route),
        access_of(route) == Some(Access::Needs(Permission::ProxyWrite)) ==> listed(PROXY_WRITE@, route),
        access_of(route) == Some(Access::Needs(Permission::MultiWanRead)) ==> listed(MULTIWAN_READ@, route),
        access_of(route) == Some(Access::Needs(Permission::MultiWanWrite)) ==> listed(MULTIWAN_WRITE@, route),
        access_of(route) == Some(Access::Needs(Permission::DashboardView)) ==> listed(DASHBOARD_VIEW@, route),
        access_of(route) == Some(Access::Needs(Permission::DnsRead)) ==> listed(DNS_READ@, route),
        access_of(route) == Some(Access::Needs(Permission::HaManage)) ==> listed(CLUSTER@, route),
{
}

/// A route is served where a table lists it, and only there.
pub proof fn every_listed_route_is_served(route: Seq<char>)
    ensures
        access_of(route) is None <==> !listed(PUBLIC_ROUTES@, route) && !listed(SELF_SERVICE@, route)
            && !listed(RULES_READ@, route) && !listed(RULES_WRITE@, route) && !listed(NAT_READ@, route)
            && !listed(NAT_WRITE@, route) && !listed(SHAPER_READ@, route) && !listed(SHAPER_WRITE@, route)
            && !listed(VPN_READ@, route) && !listed(VPN_WRITE@, route) && !listed(GEOIP_READ@, route)
            && !listed(GEOIP_WRITE@, route) && !listed(IDS_READ@, route) && !listed(IDS_WRITE@, route)
            && !listed(DNS_WRITE@, route) && !listed(DHCP_READ@, route) && !listed(DHCP_WRITE@, route)
            && !listed(ALIASES_READ@, route) && !listed(ALIASES_WRITE@, route) && !listed(IFACES_READ@, route)
            && !listed(IFACES_WRITE@, route) && !listed(CONNECTIONS_VIEW@, route) && !listed(LOGS_VIEW@, route)
            && !listed(USERS_READ@, route) && !listed(USERS_WRITE@, route) && !listed(SETTINGS_READ@, route)
            && !listed(SETTINGS_WRITE@, route) && !listed(PLUGINS_READ@, route) && !listed(PLUGINS_WRITE@, route)
            && !listed(UPDATES_READ@, route) && !listed(UPDATES_INSTALL@, route)
            && !listed(UPDATES_INSTALL_LOCAL@, route) && !listed(BACKUP_READ@, route) && !listed(BACKUP_WRITE@, route)
            && !listed(SYSTEM_READ@, route) && !listed(SYSTEM_WRITE@, route) && !listed(SYSTEM_REBOOT@, route)
            && !listed(PROXY_READ@, route) && !listed(PROXY_WRITE@, route) && !listed(MULTIWAN_READ@, route)
            && !listed(MULTIWAN_WRITE@, route) && !listed(DASHBOARD_VIEW@, route) && !listed(DNS_READ@, route)
            && !listed(CLUSTER@, route),
{
}

/// A route is listed where an entry of the table reads the same.
pub proof fn listed_is_found(table: Seq<&'static str>, route: Seq<char>, i: int)
    ensures
        0 <= i < table.len() && table[i]@ == route ==> listed(table, route),
        (forall|k: int| 0 <= k < table.len() ==> (#[trigger] table[k])@ != route) ==> !listed(table, route),
{
}

/// A route of the public table needs nothing, whatever other table lists it, and one of the
/// table of self-service needs no permission.
pub proof fn open_routes_are_open_to_all(route: Seq<char>)
    ensures
        listed(PUBLIC_ROUTES@, route) ==> access_of(route) == Some(Access::Public),
        listed(SELF_SERVICE@, route) && !listed(PUBLIC_ROUTES@, route) ==> access_of(route) == Some(Access::SignedIn),
{
}

/// An upload for an update may be 500 MiB, a configuration of another firewall 15 MiB, and any
/// other body 10 MiB.
pub proof fn bodies_are_bounded(route: &str, r: u64)
    requires
        call_ensures(body_limit, (route,), r),
    ensures
        listed(UPDATES_INSTALL_LOCAL@, route@) ==> r == 500 * 1024 * 1024,
        !listed(UPDATES_INSTALL_LOCAL@, route@) && listed(FOREIGN_CONFIGS@, route@) ==> r == 15 * 1024 * 1024,
        !listed(UPDATES_INSTALL_LOCAL@, route@) && !listed(FOREIGN_CONFIGS@, route@) ==> r == 10 * 1024 * 1024,
{
}

proof fn lemma_rules_read(route: Seq<char>)
    requires
        listed(RULES_READ@, route),
    ensures
        has_prefix(route, "GET "@),
{
    reveal_strlit("GET ");
    reveal_strlit("GET /api/v1/rules");
    reveal_strlit("GET /api/v1/rules/{id}");
    reveal_strlit("GET /api/v1/rules/system");
    reveal_strlit("GET /api/v1/schedules");
    assert(RULES_READ@.len() == 4);
    let i = choose|i: int| 0 <= i < RULES_READ@.len() && (#[trigger] RULES_READ@[i])@ == route;
    assert(route.take(4) =~= "GET "@);
}

proof fn lemma_nat_read(route: Seq<char>)
    requires
        listed(NAT_READ@, route),
    ensures
        has_prefix(route, "GET "@),
{
    reveal_strlit("GET ");
    reveal_strlit("GET /api/v1/nat");
    reveal_strlit("GET /api/v1/nat/pf-output");
    assert(NAT_READ@.len() == 2);
    let i = choose|i: int| 0 <= i < NAT_READ@.len() && (#[trigger] NAT_READ@[i])@ == route;
    assert(route.take(4) =~= "GET "@);
}

proof fn lemma_shaper_read(route: Seq<char>)
    requires
        listed(SHAPER_READ@, route),
    ensures
        has_prefix(route, "GET "@),
{
    reveal_strlit("GET ");
    reveal_strlit("GET /api/v1/shaper/queues");
    reveal_strlit("GET /api/v1/shaper/status");
    assert(SHAPER_READ@.len() == 2);
    let i = choose|i: int| 0 <= i < SHAPER_READ@.len() && (#[trigger] SHAPER_READ@[i])@ == route;
    assert(route.take(4) =~= "GET "@);
}

proof fn lemma_vpn_read(route: Seq<char>)
    requires
        listed(VPN_READ@, route),
    ensures
        has_prefix(route, "GET "@),
{
    reveal_strlit("GET ");
    reveal_strlit("GET /api/v1/vpn/wg");
    reveal_strlit("GET /api/v1/vpn/wg/{id}/peers");
    reveal_strlit("GET /api/v1/vpn/wg/{id}/peers/next-ip");
    reveal_strlit("GET /api/v1/vpn/wg/{tid}/peers/{pid}/config");
    reveal_strlit("GET /api/v1/vpn/wg/{id}/status");
    reveal_strlit("GET /api/v1/vpn/ipsec");
    reveal_strlit("GET /api/v1/vpn/ipsec/status");
    reveal_strlit("GET /api/v1/vpn/ipsec/tunnels");
    reveal_strlit("GET /api/v1/vpn/ipsec/tunnels/{id}");
    reveal_strlit("GET /api/v1/vpn/ipsec/tunnels/{id}/status");
    assert(VPN_READ@.len() == 10);
    let i = choose|i: int| 0 <= i < VPN_READ@.len() && (#[trigger] VPN_READ@[i])@ == route;
    assert(route.take(4) =~= "GET "@);
}

proof fn lemma_geoip_read(route: Seq<char>)
    requires
        listed(GEOIP_READ@, route),
    ensures
        has_prefix(route, "GET "@),
{
    reveal_strlit("GET ");
    reveal_strlit("GET /api/v1/geoip");
    reveal_strlit("GET /api/v1/geoip/lookup/{ip}");
    assert(GEOIP_READ@.len() == 2);
    let i = choose|i: int| 0 <= i < GEOIP_READ@.len() && (#[trigger] GEOIP_READ@[i])@ == route;
    assert(route.take(4) =~= "GET "@);
}

proof fn lemma_ids_read(route: Seq<char>)
    requires
        listed(IDS_READ@, route),
    ensures
        has_prefix(route, "GET "@),
{
    reveal_strlit("GET ");
    reveal_strlit("GET /api/v1/ids/config");
    reveal_strlit("GET /api/v1/ids/alerts");
    reveal_strlit("GET /api/v1/ids/alerts/{id}");
    reveal_strlit("GET /api/v1/ids/rulesets");
    reveal_strlit("GET /api/v1/ids/rules");
    reveal_strlit("GET /api/v1/ids/rules/{id}");
    reveal_strlit("GET /api/v1/ids/rules/search");
    reveal_strlit("GET /api/v1/ids/suppressions");
    reveal_strlit("GET /api/v1/ids/stats");
    reveal_strlit("GET /api/v1/ids/alerts/buffer-stats");
    reveal_strlit("GET /api/v1/ai/audit-log");
    assert(IDS_READ@.len() == 11);
    let i = choose|i: int| 0 <= i < IDS_READ@.len() && (#[trigger] IDS_READ@[i])@ == route;
    assert(route.take(4) =~= "GET "@);
}

proof fn lemma_dhcp_read(route: Seq<char>)
    requires
        listed(DHCP_READ@, route),
    ensures
        has_prefix(route, "GET "@),
{
    reveal_strlit("GET ");
    reveal_strlit("GET /api/v1/dhcp/status");
    reveal_strlit("GET /api/v1/dhcp/v4/config");
    reveal_strlit("GET /api/v1/dhcp/v4/subnets");
    reveal_strlit("GET /api/v1/dhcp/v4/reservations");
    reveal_strlit("GET /api/v1/dhcp/v4/leases");
    reveal_strlit("GET /api/v1/dhcp/ddns");
    reveal_strlit("GET /api/v1/dhcp/ha/config");
    reveal_strlit("GET /api/v1/dhcp/ha/status");
    reveal_strlit("GET /api/v1/dhcp/pool-stats");
    reveal_strlit("GET /api/v1/dhcp/metrics");
    reveal_strlit("GET /api/v1/dhcp/logs");
    assert(DHCP_READ@.len() == 11);
    let i = choose|i: int| 0 <= i < DHCP_READ@.len() && (#[trigger] DHCP_READ@[i])@ == route;
    assert(route.take(4) =~= "GET "@);
}

proof fn lemma_aliases_read(route: Seq<char>)
    requires
        listed(ALIASES_READ@, route),
    ensures
        has_prefix(route, "GET "@),
{
    reveal_strlit("GET ");
    reveal_strlit("GET /api/v1/aliases");
    reveal_strlit("GET /api/v1/aliases/{id}");
    assert(ALIASES_READ@.len() == 2);
    let i = choose|i: int| 0 <= i < ALIASES_READ@.len() && (#[trigger] ALIASES_READ@[i])@ == route;
    assert(route.take(4) =~= "GET "@);
}

proof fn lemma_ifaces_read(route: Seq<char>)
    requires
        listed(IFACES_READ@, route),
    ensures
        has_prefix(route, "GET "@),
{
    reveal_strlit("GET ");
    reveal_strlit("GET /api/v1/interfaces");
    reveal_strlit("GET /api/v1/interfaces/detailed");
    reveal_strlit("GET /api/v1/interfaces/roles");
    reveal_strlit("GET /api/v1/interfaces/{name}/stats");
    reveal_strlit("GET /api/v1/vlans");
    reveal_strlit("GET /api/v1/routes");
    reveal_strlit("GET /api/v1/routes/system");
    assert(IFACES_READ@.len() == 7);
    let i = choose|i: int| 0 <= i < IFACES_READ@.len() && (#[trigger] IFACES_READ@[i])@ == route;
    assert(route.take(4) =~= "GET "@);
}

proof fn lemma_connections_view(route: Seq<char>)
    requires
        listed(CONNECTIONS_VIEW@, route),
    ensures
        has_prefix(route, "GET "@),
{
    reveal_strlit("GET ");
    reveal_strlit("GET /api/v1/connections");
    reveal_strlit("GET /api/v1/blocked");
    assert(CONNECTIONS_VIEW@.len() == 2);
    let i = choose|i: int| 0 <= i < CONNECTIONS_VIEW@.len() && (#[trigger] CONNECTIONS_VIEW@[i])@ == route;
    assert(route.take(4) =~= "GET "@);
}

proof fn lemma_logs_view(route: Seq<char>)
    requires
        listed(LOGS_VIEW@, route),
    ensures
        has_prefix(route, "GET "@),
{
    reveal_strlit("GET ");
    reveal_strlit("GET /api/v1/logs");
    assert(LOGS_VIEW@.len() == 1);
    let i = choose|i: int| 0 <= i < LOGS_VIEW@.len() && (#[trigger] LOGS_VIEW@[i])@ == route;
    assert(route.take(4) =~= "GET "@);
}

proof fn lemma_users_read(route: Seq<char>)
    requires
        listed(USERS_READ@, route),
    ensures
        has_prefix(route, "GET "@),
{
    reveal_strlit("GET ");
    reveal_strlit("GET /api/v1/auth/users");
    reveal_strlit("GET /api/v1/auth/users/{id}");
    reveal_strlit("GET /api/v1/auth/audit");
    reveal_strlit("GET /api/v1/auth/roles");
    reveal_strlit("GET /api/v1/auth/permissions");
    assert(USERS_READ@.len() == 5);
    let i = choose|i: int| 0 <= i < USERS_READ@.len() && (#[trigger] USERS_READ@[i])@ == route;
    assert(route.take(4) =~= "GET "@);
}

proof fn lemma_settings_read(route: Seq<char>)
    requires
        listed(SETTINGS_READ@, route),
    ensures
        has_prefix(route, "GET "@),
{
    reveal_strlit("GET ");
    reveal_strlit("GET /api/v1/auth/settings");
    reveal_strlit("GET /api/v1/auth/oauth/providers");
    reveal_strlit("GET /api/v1/settings/tls");
    reveal_strlit("GET /api/v1/settings/valkey");
    reveal_strlit("GET /api/v1/settings/dashboard-history");
    reveal_strlit("GET /api/v1/settings/ids-alerts");
    reveal_strlit("GET /api/v1/settings/pf-tuning");
    reveal_strlit("GET /api/v1/settings/{section}");
    reveal_strlit("GET /api/v1/settings/ai");
    reveal_strlit("GET /api/v1/settings/ai/models");
    reveal_strlit("GET /api/v1/ca");
    reveal_strlit("GET /api/v1/ca/cert.pem");
    reveal_strlit("GET /api/v1/ca/crl");
    reveal_strlit("GET /api/v1/ca/certs");
    reveal_strlit("GET /api/v1/ca/certs/{id}");
    reveal_strlit("GET /api/v1/ca/certs/{id}/cert.pem");
    reveal_strlit("GET /api/v1/time/status");
    reveal_strlit("GET /api/v1/time/config");
    reveal_strlit("GET /api/v1/time/sources");
    reveal_strlit("GET /api/v1/time/logs");
    reveal_strlit("GET /api/v1/acme/account");
    reveal_strlit("GET /api/v1/acme/certs");
    reveal_strlit("GET /api/v1/acme/certs/{id}");
    reveal_strlit("GET /api/v1/acme/certs/{id}/cert.pem");
    reveal_strlit("GET /api/v1/acme/dns-providers");
    reveal_strlit("GET /api/v1/acme/certs/{cert_id}/targets");
    reveal_strlit("GET /api/v1/ddns/records");
    reveal_strlit("GET /api/v1/ddns/config");
    assert(SETTINGS_READ@.len() == 28);
    let i = choose|i: int| 0 <= i < SETTINGS_READ@.len() && (#[trigger] SETTINGS_READ@[i])@ == route;
    assert(route.take(4) =~= "GET "@);
}

proof fn lemma_plugins_read(route: Seq<char>)
    requires
        listed(PLUGINS_READ@, route),
    ensures
        has_prefix(route, "GET "@),
{
    reveal_strlit("GET ");
    reveal_strlit("GET /api/v1/plugins");
    reveal_strlit("GET /api/v1/plugins/{name}/logs");
    reveal_strlit("GET /api/v1/plugins/{name}/config");
    reveal_strlit("GET /api/v1/plugins/discover");
    assert(PLUGINS_READ@.len() == 4);
    let i = choose|i: int| 0 <= i < PLUGINS_READ@.len() && (#[trigger] PLUGINS_READ@[i])@ == route;
    assert(route.take(4) =~= "GET "@);
}

proof fn lemma_updates_read(route: Seq<char>)
    requires
        listed(UPDATES_READ@, route),
    ensures
        has_prefix(route, "GET "@) || route == "POST /api/v1/updates/check"@
            || route == "POST /api/v1/updates/aifw/check"@,
{
    reveal_strlit("GET ");
    reveal_strlit("GET /api/v1/updates/status");
    reveal_strlit("POST /api/v1/updates/check");
    reveal_strlit("GET /api/v1/updates/schedule");
    reveal_strlit("GET /api/v1/updates/history");
    reveal_strlit("GET /api/v1/updates/aifw/status");
    reveal_strlit("POST /api/v1/updates/aifw/check");
    assert(UPDATES_READ@.len() == 6);
    let i = choose|i: int| 0 <= i < UPDATES_READ@.len() && (#[trigger] UPDATES_READ@[i])@ == route;
    if route[0] == 'G' {
        assert(route.take(4) =~= "GET "@);
    }
}

proof fn lemma_backup_read(route: Seq<char>)
    requires
        listed(BACKUP_READ@, route),
    ensures
        has_prefix(route, "GET "@) || route == "POST /api/v1/config/preview-opnsense"@
            || route == "POST /api/v1/config/import-preview"@,
{
    reveal_strlit("GET ");
    reveal_strlit("GET /api/v1/config/history");
    reveal_strlit("GET /api/v1/config/version");
    reveal_strlit("GET /api/v1/config/diff");
    reveal_strlit("GET /api/v1/config/check");
    reveal_strlit("GET /api/v1/config/export");
    reveal_strlit("POST /api/v1/config/preview-opnsense");
    reveal_strlit("POST /api/v1/config/import-preview");
    reveal_strlit("GET /api/v1/config/restore-preview");
    reveal_strlit("GET /api/v1/config/commit-confirm/status");
    reveal_strlit("GET /api/v1/config/retention");
    reveal_strlit("GET /api/v1/backup/s3/config");
    reveal_strlit("GET /api/v1/backup/s3/list");
    reveal_strlit("GET /api/v1/notify/smtp/config");
    assert(BACKUP_READ@.len() == 13);
    let i = choose|i: int| 0 <= i < BACKUP_READ@.len() && (#[trigger] BACKUP_READ@[i])@ == route;
    if route[0] == 'G' {
        assert(route.take(4) =~= "GET "@);
    }
}

proof fn lemma_system_read(route: Seq<char>)
    requires
        listed(SYSTEM_READ@, route),
    ensures
        has_prefix(route, "GET "@),
{
    reveal_strlit("GET ");
    reveal_strlit("GET /api/v1/system/general");
    reveal_strlit("GET /api/v1/system/banner");
    reveal_strlit("GET /api/v1/system/ssh");
    reveal_strlit("GET /api/v1/system/console");
    reveal_strlit("GET /api/v1/system/info");
    reveal_strlit("GET /api/v1/system/timezones");
    assert(SYSTEM_READ@.len() == 6);
    let i = choose|i: int| 0 <= i < SYSTEM_READ@.len() && (#[trigger] SYSTEM_READ@[i])@ == route;
    assert(route.take(4) =~= "GET "@);
}

proof fn lemma_proxy_read(route: Seq<char>)
    requires
        listed(PROXY_READ@, route),
    ensures
        has_prefix(route, "GET "@),
{
    reveal_strlit("GET ");
    reveal_strlit("GET /api/v1/reverse-proxy/status");
    reveal_strlit("GET /api/v1/reverse-proxy/config");
    reveal_strlit("GET /api/v1/reverse-proxy/logs");
    reveal_strlit("GET /api/v1/reverse-proxy/entrypoints");
    reveal_strlit("GET /api/v1/reverse-proxy/http/routers");
    reveal_strlit("GET /api/v1/reverse-proxy/http/services");
    reveal_strlit("GET /api/v1/reverse-proxy/http/middlewares");
    reveal_strlit("GET /api/v1/reverse-proxy/tcp/routers");
    reveal_strlit("GET /api/v1/reverse-proxy/tcp/services");
    reveal_strlit("GET /api/v1/reverse-proxy/udp/routers");
    reveal_strlit("GET /api/v1/reverse-proxy/udp/services");
    reveal_strlit("GET /api/v1/reverse-proxy/tls/certs");
    reveal_strlit("GET /api/v1/reverse-proxy/tls/options");
    reveal_strlit("GET /api/v1/reverse-proxy/cert-resolvers");
    assert(PROXY_READ@.len() == 14);
    let i = choose|i: int| 0 <= i < PROXY_READ@.len() && (#[trigger] PROXY_READ@[i])@ == route;
    assert(route.take(4) =~= "GET "@);
}

proof fn lemma_multiwan_read(route: Seq<char>)
    requires
        listed(MULTIWAN_READ@, route),
    ensures
        has_prefix(route, "GET "@),
{
    reveal_strlit("GET ");
    reveal_strlit("GET /api/v1/multiwan/instances");
    reveal_strlit("GET /api/v1/multiwan/instances/{id}");
    reveal_strlit("GET /api/v1/multiwan/instances/{id}/members");
    reveal_strlit("GET /api/v1/multiwan/fibs");
    reveal_strlit("GET /api/v1/multiwan/gateways");
    reveal_strlit("GET /api/v1/multiwan/gateways/{id}");
    reveal_strlit("GET /api/v1/multiwan/gateways/{id}/events");
    reveal_strlit("GET /api/v1/multiwan/groups");
    reveal_strlit("GET /api/v1/multiwan/groups/{id}/members");
    reveal_strlit("GET /api/v1/multiwan/groups/{id}/active");
    reveal_strlit("GET /api/v1/multiwan/policies");
    reveal_strlit("GET /api/v1/multiwan/leaks");
    reveal_strlit("GET /api/v1/multiwan/flows");
    reveal_strlit("GET /api/v1/multiwan/gateways/{id}/sla");
    reveal_strlit("GET /api/v1/multiwan/config.yaml");
    assert(MULTIWAN_READ@.len() == 15);
    let i = choose|i: int| 0 <= i < MULTIWAN_READ@.len() && (#[trigger] MULTIWAN_READ@[i])@ == route;
    assert(route.take(4) =~= "GET "@);
}

proof fn lemma_dashboard_view(route: Seq<char>)
    requires
        listed(DASHBOARD_VIEW@, route),
    ensures
        has_prefix(route, "GET "@),
{
    reveal_strlit("GET ");
    reveal_strlit("GET /api/v1/status");
    reveal_strlit("GET /api/v1/about");
    reveal_strlit("GET /api/v1/metrics");
    reveal_strlit("GET /api/v1/metrics/list");
    reveal_strlit("GET /api/v1/metrics/series");
    reveal_strlit("GET /api/v1/ws");
    reveal_strlit("GET /api/v1/pending/stream");
    reveal_strlit("GET /api/v1/pending");
    assert(DASHBOARD_VIEW@.len() == 8);
    let i = choose|i: int| 0 <= i < DASHBOARD_VIEW@.len() && (#[trigger] DASHBOARD_VIEW@[i])@ == route;
    assert(route.take(4) =~= "GET "@);
}

proof fn lemma_dns_read(route: Seq<char>)
    requires
        listed(DNS_READ@, route),
    ensures
        has_prefix(route, "GET "@),
{
    reveal_strlit("GET ");
    reveal_strlit("GET /api/v1/dns");
    reveal_strlit("GET /api/v1/dns/resolver/status");
    reveal_strlit("GET /api/v1/dns/resolver/config");
    reveal_strlit("GET /api/v1/dns/resolver/hosts");
    reveal_strlit("GET /api/v1/dns/resolver/domains");
    reveal_strlit("GET /api/v1/dns/resolver/acls");
    reveal_strlit("GET /api/v1/dns/resolver/logs");
    reveal_strlit("GET /api/v1/dns/blocklists");
    reveal_strlit("GET /api/v1/dns/blocklists/{id}");
    reveal_strlit("GET /api/v1/dns/blocklists/schedule");
    reveal_strlit("GET /api/v1/dns/whitelist");
    reveal_strlit("GET /api/v1/dns/customblocks");
    reveal_strlit("GET /api/v1/dns/stats");
    reveal_strlit("GET /api/v1/dns/stream");
    assert(DNS_READ@.len() == 14);
    let i = choose|i: int| 0 <= i < DNS_READ@.len() && (#[trigger] DNS_READ@[i])@ == route;
    assert(route.take(4) =~= "GET "@);
}

proof fn lemma_rules_write(route: Seq<char>)
    requires
        listed(RULES_WRITE@, route),
    ensures
        !has_prefix(route, "GET "@),
{
    reveal_strlit("GET ");
    reveal_strlit("POST /api/v1/rules");
    reveal_strlit("PUT /api/v1/rules/{id}");
    reveal_strlit("DELETE /api/v1/rules/{id}");
    reveal_strlit("PUT /api/v1/rules/reorder");
    reveal_strlit("POST /api/v1/rules/block-logging");
    reveal_strlit("POST /api/v1/reload");
    reveal_strlit("POST /api/v1/schedules");
    reveal_strlit("PUT /api/v1/schedules/{id}");
    reveal_strlit("DELETE /api/v1/schedules/{id}");
    assert(RULES_WRITE@.len() == 9);
    let i = choose|i: int| 0 <= i < RULES_WRITE@.len() && (#[trigger] RULES_WRITE@[i])@ == route;
    if has_prefix(route, "GET "@) {
        assert(route.take(4)[0] == route[0]);
    }
}

proof fn lemma_nat_write(route: Seq<char>)
    requires
        listed(NAT_WRITE@, route),
    ensures
        !has_prefix(route, "GET "@),
{
    reveal_strlit("GET ");
    reveal_strlit("POST /api/v1/nat");
    reveal_strlit("PUT /api/v1/nat/{id}");
    reveal_strlit("DELETE /api/v1/nat/{id}");
    reveal_strlit("PUT /api/v1/nat/reorder");
    assert(NAT_WRITE@.len() == 4);
    let i = choose|i: int| 0 <= i < NAT_WRITE@.len() && (#[trigger] NAT_WRITE@[i])@ == route;
    if has_prefix(route, "GET "@) {
        assert(route.take(4)[0] == route[0]);
    }
}

proof fn lemma_shaper_write(route: Seq<char>)
    requires
        listed(SHAPER_WRITE@, route),
    ensures
        !has_prefix(route, "GET "@),
{
    reveal_strlit("GET ");
    reveal_strlit("POST /api/v1/shaper/queues");
    reveal_strlit("PUT /api/v1/shaper/queues/{id}");
    reveal_strlit("DELETE /api/v1/shaper/queues/{id}");
    reveal_strlit("POST /api/v1/shaper/apply");
    assert(SHAPER_WRITE@.len() == 4);
    let i = choose|i: int| 0 <= i < SHAPER_WRITE@.len() && (#[trigger] SHAPER_WRITE@[i])@ == route;
    if has_prefix(route, "GET "@) {
        assert(route.take(4)[0] == route[0]);
    }
}

proof fn lemma_vpn_write(route: Seq<char>)
    requires
        listed(VPN_WRITE@, route),
    ensures
        !has_prefix(route, "GET "@),
{
    reveal_strlit("GET ");
    reveal_strlit("POST /api/v1/vpn/wg");
    reveal_strlit("PUT /api/v1/vpn/wg/{id}");
    reveal_strlit("DELETE /api/v1/vpn/wg/{id}");
    reveal_strlit("POST /api/v1/vpn/wg/{id}/start");
    reveal_strlit("POST /api/v1/vpn/wg/{id}/stop");
    reveal_strlit("POST /api/v1/vpn/wg/{id}/peers");
    reveal_strlit("PUT /api/v1/vpn/wg/{tid}/peers/{pid}");
    reveal_strlit("DELETE /api/v1/vpn/wg/{tid}/peers/{pid}");
    reveal_strlit("POST /api/v1/vpn/ipsec");
    reveal_strlit("DELETE /api/v1/vpn/ipsec/{id}");
    reveal_strlit("POST /api/v1/vpn/ipsec/tunnels");
    reveal_strlit("PUT /api/v1/vpn/ipsec/tunnels/{id}");
    reveal_strlit("DELETE /api/v1/vpn/ipsec/tunnels/{id}");
    reveal_strlit("POST /api/v1/vpn/ipsec/tunnels/{id}/start");
    reveal_strlit("POST /api/v1/vpn/ipsec/tunnels/{id}/stop");
    assert(VPN_WRITE@.len() == 15);
    let i = choose|i: int| 0 <= i < VPN_WRITE@.len() && (#[trigger] VPN_WRITE@[i])@ == route;
    if has_prefix(route, "GET "@) {
        assert(route.take(4)[0] == route[0]);
    }
}

proof fn lemma_geoip_write(route: Seq<char>)
    requires
        listed(GEOIP_WRITE@, route),
    ensures
        !has_prefix(route, "GET "@),
{
    reveal_strlit("GET ");
    reveal_strlit("POST /api/v1/geoip");
    reveal_strlit("PUT /api/v1/geoip/{id}");
    reveal_strlit("DELETE /api/v1/geoip/{id}");
    assert(GEOIP_WRITE@.len() == 3);
    let i = choose|i: int| 0 <= i < GEOIP_WRITE@.len() && (#[trigger] GEOIP_WRITE@[i])@ == route;
    if has_prefix(route, "GET "@) {
        assert(route.take(4)[0] == route[0]);
    }
}

proof fn lemma_ids_write(route: Seq<char>)
    requires
        listed(IDS_WRITE@, route),
    ensures
        !has_prefix(route, "GET "@),
{
    reveal_strlit("GET ");
    reveal_strlit("PUT /api/v1/ids/config");
    reveal_strlit("DELETE /api/v1/ids/alerts");
    reveal_strlit("PUT /api/v1/ids/alerts/{id}/acknowledge");
    reveal_strlit("PUT /api/v1/ids/alerts/{id}/classify");
    reveal_strlit("POST /api/v1/ids/rulesets");
    reveal_strlit("PUT /api/v1/ids/rulesets/{id}");
    reveal_strlit("DELETE /api/v1/ids/rulesets/{id}");
    reveal_strlit("PUT /api/v1/ids/rules/{id}");
    reveal_strlit("POST /api/v1/ids/suppressions");
    reveal_strlit("DELETE /api/v1/ids/suppressions/{id}");
    reveal_strlit("POST /api/v1/ids/reload");
    reveal_strlit("POST /api/v1/ai/analyze");
    assert(IDS_WRITE@.len() == 12);
    let i = choose|i: int| 0 <= i < IDS_WRITE@.len() && (#[trigger] IDS_WRITE@[i])@ == route;
    if has_prefix(route, "GET "@) {
        assert(route.take(4)[0] == route[0]);
    }
}

proof fn lemma_dns_write(route: Seq<char>)
    requires
        listed(DNS_WRITE@, route),
    ensures
        !has_prefix(route, "GET "@),
{
    reveal_strlit("GET ");
    reveal_strlit("PUT /api/v1/dns");
    reveal_strlit("PUT /api/v1/dns/resolver/config");
    reveal_strlit("POST /api/v1/dns/resolver/hosts");
    reveal_strlit("PUT /api/v1/dns/resolver/hosts/{id}");
    reveal_strlit("DELETE /api/v1/dns/resolver/hosts/{id}");
    reveal_strlit("POST /api/v1/dns/resolver/domains");
    reveal_strlit("PUT /api/v1/dns/resolver/domains/{id}");
    reveal_strlit("DELETE /api/v1/dns/resolver/domains/{id}");
    reveal_strlit("POST /api/v1/dns/resolver/acls");
    reveal_strlit("DELETE /api/v1/dns/resolver/acls/{id}");
    reveal_strlit("POST /api/v1/dns/resolver/apply");
    reveal_strlit("POST /api/v1/dns/resolver/start");
    reveal_strlit("POST /api/v1/dns/resolver/stop");
    reveal_strlit("POST /api/v1/dns/resolver/restart");
    reveal_strlit("POST /api/v1/dns/blocklists");
    reveal_strlit("PUT /api/v1/dns/blocklists/{id}");
    reveal_strlit("DELETE /api/v1/dns/blocklists/{id}");
    reveal_strlit("POST /api/v1/dns/blocklists/{id}/refresh");
    reveal_strlit("POST /api/v1/dns/blocklists/refresh-all");
    reveal_strlit("PUT /api/v1/dns/blocklists/schedule");
    reveal_strlit("PUT /api/v1/dns/blocklists/enabled");
    reveal_strlit("POST /api/v1/dns/whitelist");
    reveal_strlit("DELETE /api/v1/dns/whitelist/{id}");
    reveal_strlit("POST /api/v1/dns/customblocks");
    reveal_strlit("DELETE /api/v1/dns/customblocks/{id}");
    assert(DNS_WRITE@.len() == 25);
    let i = choose|i: int| 0 <= i < DNS_WRITE@.len() && (#[trigger] DNS_WRITE@[i])@ == route;
    if has_prefix(route, "GET "@) {
        assert(route.take(4)[0] == route[0]);
    }
}

proof fn lemma_dhcp_write(route: Seq<char>)
    requires
        listed(DHCP_WRITE@, route),
    ensures
        !has_prefix(route, "GET "@),
{
    reveal_strlit("GET ");
    reveal_strlit("POST /api/v1/dhcp/start");
    reveal_strlit("POST /api/v1/dhcp/stop");
    reveal_strlit("POST /api/v1/dhcp/restart");
    reveal_strlit("PUT /api/v1/dhcp/v4/config");
    reveal_strlit("POST /api/v1/dhcp/v4/subnets");
    reveal_strlit("PUT /api/v1/dhcp/v4/subnets/{id}");
    reveal_strlit("DELETE /api/v1/dhcp/v4/subnets/{id}");
    reveal_strlit("POST /api/v1/dhcp/v4/reservations");
    reveal_strlit("PUT /api/v1/dhcp/v4/reservations/{id}");
    reveal_strlit("DELETE /api/v1/dhcp/v4/reservations/{id}");
    reveal_strlit("DELETE /api/v1/dhcp/v4/leases/{ip}");
    reveal_strlit("POST /api/v1/dhcp/v4/apply");
    reveal_strlit("PUT /api/v1/dhcp/ddns");
    reveal_strlit("PUT /api/v1/dhcp/ha/config");
    assert(DHCP_WRITE@.len() == 14);
    let i = choose|i: int| 0 <= i < DHCP_WRITE@.len() && (#[trigger] DHCP_WRITE@[i])@ == route;
    if has_prefix(route, "GET "@) {
        assert(route.take(4)[0] == route[0]);
    }
}

proof fn lemma_aliases_write(route: Seq<char>)
    requires
        listed(ALIASES_WRITE@, route),
    ensures
        !has_prefix(route, "GET "@),
{
    reveal_strlit("GET ");
    reveal_strlit("POST /api/v1/aliases");
    reveal_strlit("PUT /api/v1/aliases/{id}");
    reveal_strlit("DELETE /api/v1/aliases/{id}");
    assert(ALIASES_WRITE@.len() == 3);
    let i = choose|i: int| 0 <= i < ALIASES_WRITE@.len() && (#[trigger] ALIASES_WRITE@[i])@ == route;
    if has_prefix(route, "GET "@) {
        assert(route.take(4)[0] == route[0]);
    }
}

proof fn lemma_ifaces_write(route: Seq<char>)
    requires
        listed(IFACES_WRITE@, route),
    ensures
        !has_prefix(route, "GET "@),
{
    reveal_strlit("GET ");
    reveal_strlit("PUT /api/v1/interfaces/{name}/role");
    reveal_strlit("DELETE /api/v1/interfaces/{name}/role");
    reveal_strlit("PUT /api/v1/interfaces/config/{name}");
    reveal_strlit("POST /api/v1/vlans");
    reveal_strlit("PUT /api/v1/vlans/{id}");
    reveal_strlit("DELETE /api/v1/vlans/{id}");
    reveal_strlit("POST /api/v1/routes");
    reveal_strlit("PUT /api/v1/routes/{id}");
    reveal_strlit("DELETE /api/v1/routes/{id}");
    assert(IFACES_WRITE@.len() == 9);
    let i = choose|i: int| 0 <= i < IFACES_WRITE@.len() && (#[trigger] IFACES_WRITE@[i])@ == route;
    if has_prefix(route, "GET "@) {
        assert(route.take(4)[0] == route[0]);
    }
}

proof fn lemma_users_write(route: Seq<char>)
    requires
        listed(USERS_WRITE@, route),
    ensures
        !has_prefix(route, "GET "@),
{
    reveal_strlit("GET ");
    reveal_strlit("POST /api/v1/auth/users");
    reveal_strlit("PUT /api/v1/auth/users/{id}");
    reveal_strlit("DELETE /api/v1/auth/users/{id}");
    reveal_strlit("POST /api/v1/auth/api-keys");
    reveal_strlit("POST /api/v1/auth/roles");
    reveal_strlit("PUT /api/v1/auth/roles/{id}");
    reveal_strlit("DELETE /api/v1/auth/roles/{id}");
    assert(USERS_WRITE@.len() == 7);
    let i = choose|i: int| 0 <= i < USERS_WRITE@.len() && (#[trigger] USERS_WRITE@[i])@ == route;
    if has_prefix(route, "GET "@) {
        assert(route.take(4)[0] == route[0]);
    }
}

proof fn lemma_settings_write(route: Seq<char>)
    requires
        listed(SETTINGS_WRITE@, route),
    ensures
        !has_prefix(route, "GET "@) || route == "GET /api/v1/ca/certs/{id}/key.pem"@
            || route == "GET /api/v1/acme/certs/{id}/key.pem"@,
{
    reveal_strlit("GET ");
    reveal_strlit("PUT /api/v1/auth/settings");
    reveal_strlit("POST /api/v1/auth/oauth/providers");
    reveal_strlit("DELETE /api/v1/auth/oauth/providers/{id}");
    reveal_strlit("PUT /api/v1/settings/tls");
    reveal_strlit("PUT /api/v1/settings/valkey");
    reveal_strlit("PUT /api/v1/settings/dashboard-history");
    reveal_strlit("PUT /api/v1/settings/ids-alerts");
    reveal_strlit("PUT /api/v1/settings/pf-tuning");
    reveal_strlit("PUT /api/v1/settings/{section}");
    reveal_strlit("PUT /api/v1/settings/ai");
    reveal_strlit("POST /api/v1/settings/ai/test");
    reveal_strlit("POST /api/v1/ca");
    reveal_strlit("POST /api/v1/ca/certs");
    reveal_strlit("DELETE /api/v1/ca/certs/{id}");
    reveal_strlit("GET /api/v1/ca/certs/{id}/key.pem");
    reveal_strlit("POST /api/v1/ca/certs/{id}/revoke");
    reveal_strlit("PUT /api/v1/time/config");
    reveal_strlit("POST /api/v1/time/sources");
    reveal_strlit("PUT /api/v1/time/sources/{id}");
    reveal_strlit("DELETE /api/v1/time/sources/{id}");
    reveal_strlit("POST /api/v1/time/start");
    reveal_strlit("POST /api/v1/time/stop");
    reveal_strlit("POST /api/v1/time/restart");
    reveal_strlit("POST /api/v1/time/apply");
    reveal_strlit("PUT /api/v1/acme/account");
    reveal_strlit("POST /api/v1/acme/certs");
    reveal_strlit("DELETE /api/v1/acme/certs/{id}");
    reveal_strlit("POST /api/v1/acme/certs/{id}/renew");
    reveal_strlit("POST /api/v1/acme/certs/{id}/publish");
    reveal_strlit("GET /api/v1/acme/certs/{id}/key.pem");
    reveal_strlit("POST /api/v1/acme/dns-providers");
    reveal_strlit("PUT /api/v1/acme/dns-providers/{id}");
    reveal_strlit("DELETE /api/v1/acme/dns-providers/{id}");
    reveal_strlit("POST /api/v1/acme/dns-providers/{id}/test");
    reveal_strlit("POST /api/v1/acme/certs/{cert_id}/targets");
    reveal_strlit("DELETE /api/v1/acme/export-targets/{id}");
    reveal_strlit("POST /api/v1/ddns/records");
    reveal_strlit("PUT /api/v1/ddns/records/{id}");
    reveal_strlit("DELETE /api/v1/ddns/records/{id}");
    reveal_strlit("POST /api/v1/ddns/records/{id}/update");
    reveal_strlit("PUT /api/v1/ddns/config");
    assert(SETTINGS_WRITE@.len() == 41);
    let i = choose|i: int| 0 <= i < SETTINGS_WRITE@.len() && (#[trigger] SETTINGS_WRITE@[i])@ == route;
    if has_prefix(route, "GET "@) {
        assert(route.take(4)[0] == route[0]);
    }
}

proof fn lemma_plugins_write(route: Seq<char>)
    requires
        listed(PLUGINS_WRITE@, route),
    ensures
        !has_prefix(route, "GET "@),
{
    reveal_strlit("GET ");
    reveal_strlit("POST /api/v1/plugins/toggle");
    reveal_strlit("PUT /api/v1/plugins/{name}/config");
    assert(PLUGINS_WRITE@.len() == 2);
    let i = choose|i: int| 0 <= i < PLUGINS_WRITE@.len() && (#[trigger] PLUGINS_WRITE@[i])@ == route;
    if has_prefix(route, "GET "@) {
        assert(route.take(4)[0] == route[0]);
    }
}

proof fn lemma_updates_install(route: Seq<char>)
    requires
        listed(UPDATES_INSTALL@, route),
    ensures
        !has_prefix(route, "GET "@),
{
    reveal_strlit("GET ");
    reveal_strlit("POST /api/v1/updates/install");
    reveal_strlit("PUT /api/v1/updates/schedule");
    reveal_strlit("POST /api/v1/updates/aifw/install");
    reveal_strlit("POST /api/v1/updates/aifw/rollback");
    reveal_strlit("POST /api/v1/updates/aifw/restart");
    reveal_strlit("POST /api/v1/updates/aifw/reboot");
    reveal_strlit("POST /api/v1/updates/aifw/prerelease");
    assert(UPDATES_INSTALL@.len() == 7);
    let i = choose|i: int| 0 <= i < UPDATES_INSTALL@.len() && (#[trigger] UPDATES_INSTALL@[i])@ == route;
    if has_prefix(route, "GET "@) {
        assert(route.take(4)[0] == route[0]);
    }
}

proof fn lemma_updates_install_local(route: Seq<char>)
    requires
        listed(UPDATES_INSTALL_LOCAL@, route),
    ensures
        !has_prefix(route, "GET "@),
{
    reveal_strlit("GET ");
    reveal_strlit("POST /api/v1/updates/aifw/install-local");
    assert(UPDATES_INSTALL_LOCAL@.len() == 1);
    let i = choose|i: int| 0 <= i < UPDATES_INSTALL_LOCAL@.len() && (#[trigger] UPDATES_INSTALL_LOCAL@[i])@ == route;
    if has_prefix(route, "GET "@) {
        assert(route.take(4)[0] == route[0]);
    }
}

proof fn lemma_backup_write(route: Seq<char>)
    requires
        listed(BACKUP_WRITE@, route),
    ensures
        !has_prefix(route, "GET "@),
{
    reveal_strlit("GET ");
    reveal_strlit("POST /api/v1/config/import");
    reveal_strlit("POST /api/v1/config/restore");
    reveal_strlit("POST /api/v1/config/import-opnsense");
    reveal_strlit("POST /api/v1/config/save");
    reveal_strlit("POST /api/v1/config/commit-confirm");
    reveal_strlit("POST /api/v1/config/commit-confirm/confirm");
    reveal_strlit("PUT /api/v1/config/retention");
    reveal_strlit("PUT /api/v1/backup/s3/config");
    reveal_strlit("POST /api/v1/backup/s3/test");
    reveal_strlit("POST /api/v1/backup/s3/import");
    reveal_strlit("PUT /api/v1/notify/smtp/config");
    reveal_strlit("POST /api/v1/notify/smtp/test");
    assert(BACKUP_WRITE@.len() == 12);
    let i = choose|i: int| 0 <= i < BACKUP_WRITE@.len() && (#[trigger] BACKUP_WRITE@[i])@ == route;
    if has_prefix(route, "GET "@) {
        assert(route.take(4)[0] == route[0]);
    }
}

proof fn lemma_system_write(route: Seq<char>)
    requires
        listed(SYSTEM_WRITE@, route),
    ensures
        !has_prefix(route, "GET "@),
{
    reveal_strlit("GET ");
    reveal_strlit("PUT /api/v1/system/general");
    reveal_strlit("PUT /api/v1/system/banner");
    reveal_strlit("PUT /api/v1/system/ssh");
    reveal_strlit("PUT /api/v1/system/console");
    assert(SYSTEM_WRITE@.len() == 4);
    let i = choose|i: int| 0 <= i < SYSTEM_WRITE@.len() && (#[trigger] SYSTEM_WRITE@[i])@ == route;
    if has_prefix(route, "GET "@) {
        assert(route.take(4)[0] == route[0]);
    }
}

proof fn lemma_system_reboot(route: Seq<char>)
    requires
        listed(SYSTEM_REBOOT@, route),
    ensures
        !has_prefix(route, "GET "@),
{
    reveal_strlit("GET ");
    reveal_strlit("POST /api/v1/updates/reboot");
    reveal_strlit("POST /api/v1/updates/shutdown");
    reveal_strlit("POST /api/v1/multiwan/enable-fibs");
    assert(SYSTEM_REBOOT@.len() == 3);
    let i = choose|i: int| 0 <= i < SYSTEM_REBOOT@.len() && (#[trigger] SYSTEM_REBOOT@[i])@ == route;
    if has_prefix(route, "GET "@) {
        assert(route.take(4)[0] == route[0]);
    }
}

proof fn lemma_proxy_write(route: Seq<char>)
    requires
        listed(PROXY_WRITE@, route),
    ensures
        !has_prefix(route, "GET "@),
{
    reveal_strlit("GET ");
    reveal_strlit("PUT /api/v1/reverse-proxy/config");
    reveal_strlit("POST /api/v1/reverse-proxy/validate");
    reveal_strlit("POST /api/v1/reverse-proxy/entrypoints");
    reveal_strlit("PUT /api/v1/reverse-proxy/entrypoints/{id}");
    reveal_strlit("DELETE /api/v1/reverse-proxy/entrypoints/{id}");
    reveal_strlit("POST /api/v1/reverse-proxy/http/routers");
    reveal_strlit("PUT /api/v1/reverse-proxy/http/routers/{id}");
    reveal_strlit("DELETE /api/v1/reverse-proxy/http/routers/{id}");
    reveal_strlit("POST /api/v1/reverse-proxy/http/services");
    reveal_strlit("PUT /api/v1/reverse-proxy/http/services/{id}");
    reveal_strlit("DELETE /api/v1/reverse-proxy/http/services/{id}");
    reveal_strlit("POST /api/v1/reverse-proxy/http/middlewares");
    reveal_strlit("PUT /api/v1/reverse-proxy/http/middlewares/{id}");
    reveal_strlit("DELETE /api/v1/reverse-proxy/http/middlewares/{id}");
    reveal_strlit("POST /api/v1/reverse-proxy/tcp/routers");
    reveal_strlit("PUT /api/v1/reverse-proxy/tcp/routers/{id}");
    reveal_strlit("DELETE /api/v1/reverse-proxy/tcp/routers/{id}");
    reveal_strlit("POST /api/v1/reverse-proxy/tcp/services");
    reveal_strlit("PUT /api/v1/reverse-proxy/tcp/services/{id}");
    reveal_strlit("DELETE /api/v1/reverse-proxy/tcp/services/{id}");
    reveal_strlit("POST /api/v1/reverse-proxy/udp/routers");
    reveal_strlit("PUT /api/v1/reverse-proxy/udp/routers/{id}");
    reveal_strlit("DELETE /api/v1/reverse-proxy/udp/routers/{id}");
    reveal_strlit("POST /api/v1/reverse-proxy/udp/services");
    reveal_strlit("PUT /api/v1/reverse-proxy/udp/services/{id}");
    reveal_strlit("DELETE /api/v1/reverse-proxy/udp/services/{id}");
    reveal_strlit("POST /api/v1/reverse-proxy/tls/certs");
    reveal_strlit("PUT /api/v1/reverse-proxy/tls/certs/{id}");
    reveal_strlit("DELETE /api/v1/reverse-proxy/tls/certs/{id}");
    reveal_strlit("POST /api/v1/reverse-proxy/tls/options");
    reveal_strlit("PUT /api/v1/reverse-proxy/tls/options/{id}");
    reveal_strlit("DELETE /api/v1/reverse-proxy/tls/options/{id}");
    reveal_strlit("POST /api/v1/reverse-proxy/cert-resolvers");
    reveal_strlit("PUT /api/v1/reverse-proxy/cert-resolvers/{id}");
    reveal_strlit("DELETE /api/v1/reverse-proxy/cert-resolvers/{id}");
    reveal_strlit("POST /api/v1/reverse-proxy/start");
    reveal_strlit("POST /api/v1/reverse-proxy/stop");
    reveal_strlit("POST /api/v1/reverse-proxy/restart");
    reveal_strlit("POST /api/v1/reverse-proxy/apply");
    assert(PROXY_WRITE@.len() == 39);
    let i = choose|i: int| 0 <= i < PROXY_WRITE@.len() && (#[trigger] PROXY_WRITE@[i])@ == route;
    if has_prefix(route, "GET "@) {
        assert(route.take(4)[0] == route[0]);
    }
}

proof fn lemma_multiwan_write(route: Seq<char>)
    requires
        listed(MULTIWAN_WRITE@, route),
    ensures
        !has_prefix(route, "GET "@),
{
    reveal_strlit("GET ");
    reveal_strlit("POST /api/v1/multiwan/instances");
    reveal_strlit("PUT /api/v1/multiwan/instances/{id}");
    reveal_strlit("DELETE /api/v1/multiwan/instances/{id}");
    reveal_strlit("POST /api/v1/multiwan/instances/{id}/members");
    reveal_strlit("DELETE /api/v1/multiwan/instances/{id}/members/{iface}");
    reveal_strlit("POST /api/v1/multiwan/gateways");
    reveal_strlit("PUT /api/v1/multiwan/gateways/{id}");
    reveal_strlit("DELETE /api/v1/multiwan/gateways/{id}");
    reveal_strlit("POST /api/v1/multiwan/gateways/{id}/probe-now");
    reveal_strlit("POST /api/v1/multiwan/groups");
    reveal_strlit("PUT /api/v1/multiwan/groups/{id}");
    reveal_strlit("DELETE /api/v1/multiwan/groups/{id}");
    reveal_strlit("POST /api/v1/multiwan/groups/{id}/members");
    reveal_strlit("DELETE /api/v1/multiwan/groups/{id}/members/{gw}");
    reveal_strlit("POST /api/v1/multiwan/policies");
    reveal_strlit("PUT /api/v1/multiwan/policies/{id}");
    reveal_strlit("DELETE /api/v1/multiwan/policies/{id}");
    reveal_strlit("POST /api/v1/multiwan/apply");
    reveal_strlit("PUT /api/v1/multiwan/policies/reorder");
    reveal_strlit("POST /api/v1/multiwan/policies/{id}/duplicate");
    reveal_strlit("PUT /api/v1/multiwan/policies/{id}/toggle");
    reveal_strlit("POST /api/v1/multiwan/leaks");
    reveal_strlit("DELETE /api/v1/multiwan/leaks/{id}");
    reveal_strlit("POST /api/v1/multiwan/leaks/seed-mgmt");
    reveal_strlit("POST /api/v1/multiwan/preview");
    reveal_strlit("POST /api/v1/multiwan/flows/{label}/migrate");
    reveal_strlit("POST /api/v1/multiwan/apply-yaml");
    assert(MULTIWAN_WRITE@.len() == 27);
    let i = choose|i: int| 0 <= i < MULTIWAN_WRITE@.len() && (#[trigger] MULTIWAN_WRITE@[i])@ == route;
    if has_prefix(route, "GET "@) {
        assert(route.take(4)[0] == route[0]);
    }
}

proof fn lemma_cluster(route: Seq<char>)
    requires
        listed(CLUSTER@, route),
    ensures
        !has_prefix(route, "GET "@),
{
    reveal_strlit("GET ");
    reveal_strlit("PUT /api/v1/cluster/snapshot");
    reveal_strlit("POST /api/v1/cluster/cert-push");
    assert(CLUSTER@.len() == 2);
    let i = choose|i: int| 0 <= i < CLUSTER@.len() && (#[trigger] CLUSTER@[i])@ == route;
    if has_prefix(route, "GET "@) {
        assert(route.take(4)[0] == route[0]);
    }
}

/// What a permission to read or to view opens is read, but for the four requests that look
/// something up by sending it.
pub proof fn permission_to_read_changes_nothing(route: Seq<char>)
    ensures
        access_of(route) == Some(Access::Needs(Permission::RulesRead)) ==> has_prefix(route, "GET "@),
        access_of(route) == Some(Access::Needs(Permission::NatRead)) ==> has_prefix(route, "GET "@),
        access_of(route) == Some(Access::Needs(Permission::VpnRead)) ==> has_prefix(route, "GET "@),
        access_of(route) == Some(Access::Needs(Permission::GeoipRead)) ==> has_prefix(route, "GET "@),
        access_of(route) == Some(Access::Needs(Permission::IdsRead)) ==> has_prefix(route, "GET "@),
        access_of(route) == Some(Access::Needs(Permission::DhcpRead)) ==> has_prefix(route, "GET "@),
        access_of(route) == Some(Access::Needs(Permission::AliasesRead)) ==> has_prefix(route, "GET "@),
        access_of(route) == Some(Access::Needs(Permission::InterfacesRead)) ==> has_prefix(route, "GET "@),
        access_of(route) == Some(Access::Needs(Permission::ConnectionsView)) ==> has_prefix(route, "GET "@),
        access_of(route) == Some(Access::Needs(Permission::LogsView)) ==> has_prefix(route, "GET "@),
        access_of(route) == Some(Access::Needs(Permission::UsersRead)) ==> has_prefix(route, "GET "@),
        access_of(route) == Some(Access::Needs(Permission::SettingsRead)) ==> has_prefix(route, "GET "@),
        access_of(route) == Some(Access::Needs(Permission::PluginsRead)) ==> has_prefix(route, "GET "@),
        access_of(route) == Some(Access::Needs(Permission::UpdatesRead)) ==> has_prefix(route, "GET "@)
            || route == "POST /api/v1/updates/check"@ || route == "POST /api/v1/updates/aifw/check"@,
        access_of(route) == Some(Access::Needs(Permission::BackupRead)) ==> has_prefix(route, "GET "@)
            || route == "POST /api/v1/config/preview-opnsense"@ || route == "POST /api/v1/config/import-preview"@,
        access_of(route) == Some(Access::Needs(Permission::ProxyRead)) ==> has_prefix(route, "GET "@),
        access_of(route) == Some(Access::Needs(Permission::MultiWanRead)) ==> has_prefix(route, "GET "@),
        access_of(route) == Some(Access::Needs(Permission::DashboardView)) ==> has_prefix(route, "GET "@),
        access_of(route) == Some(Access::Needs(Permission::DnsRead)) ==> has_prefix(route, "GET "@),
{
    if access_of(route) == Some(Access::Needs(Permission::RulesRead)) {
        if listed(RULES_READ@, route) {
            lemma_rules_read(route);
        }
        if listed(SHAPER_READ@, route) {
            lemma_shaper_read(route);
        }
    }
    if access_of(route) == Some(Access::Needs(Permission::NatRead)) {
        if listed(NAT_READ@, route) {
            lemma_nat_read(route);
        }
    }
    if access_of(route) == Some(Access::Needs(Permission::VpnRead)) {
        if listed(VPN_READ@, route) {
            lemma_vpn_read(route);
        }
    }
    if access_of(route) == Some(Access::Needs(Permission::GeoipRead)) {
        if listed(GEOIP_READ@, route) {
            lemma_geoip_read(route);
        }
    }
    if access_of(route) == Some(Access::Needs(Permission::IdsRead)) {
        if listed(IDS_READ@, route) {
            lemma_ids_read(route);
        }
    }
    if access_of(route) == Some(Access::Needs(Permission::DhcpRead)) {
        if listed(DHCP_READ@, route) {
            lemma_dhcp_read(route);
        }
    }
    if access_of(route) == Some(Access::Needs(Permission::AliasesRead)) {
        if listed(ALIASES_READ@, route) {
            lemma_aliases_read(route);
        }
    }
    if access_of(route) == Some(Access::Needs(Permission::InterfacesRead)) {
        if listed(IFACES_READ@, route) {
            lemma_ifaces_read(route);
        }
    }
    if access_of(route) == Some(Access::Needs(Permission::ConnectionsView)) {
        if listed(CONNECTIONS_VIEW@, route) {
            lemma_connections_view(route);
        }
    }
    if access_of(route) == Some(Access::Needs(Permission::LogsView)) {
        if listed(LOGS_VIEW@, route) {
            lemma_logs_view(route);
        }
    }
    if access_of(route) == Some(Access::Needs(Permission::UsersRead)) {
        if listed(USERS_READ@, route) {
            lemma_users_read(route);
        }
    }
    if access_of(route) == Some(Access::Needs(Permission::SettingsRead)) {
        if listed(SETTINGS_READ@, route) {
            lemma_settings_read(route);
        }
        if listed(SYSTEM_READ@, route) {
            lemma_system_read(route);
        }
    }
    if access_of(route) == Some(Access::Needs(Permission::PluginsRead)) {
        if listed(PLUGINS_READ@, route) {
            lemma_plugins_read(route);
        }
    }
    if access_of(route) == Some(Access::Needs(Permission::UpdatesRead)) {
        if listed(UPDATES_READ@, route) {
            lemma_updates_read(route);
        }
    }
    if access_of(route) == Some(Access::Needs(Permission::BackupRead)) {
        if listed(BACKUP_READ@, route) {
            lemma_backup_read(route);
        }
    }
    if access_of(route) == Some(Access::Needs(Permission::ProxyRead)) {
        if listed(PROXY_READ@, route) {
            lemma_proxy_read(route);
        }
    }
    if access_of(route) == Some(Access::Needs(Permission::MultiWanRead)) {
        if listed(MULTIWAN_READ@, route) {
            lemma_multiwan_read(route);
        }
    }
    if access_of(route) == Some(Access::Needs(Permission::DashboardView)) {
        if listed(DASHBOARD_VIEW@, route) {
            lemma_dashboard_view(route);
        }
    }
    if access_of(route) == Some(Access::Needs(Permission::DnsRead)) {
        if listed(DNS_READ@, route) {
            lemma_dns_read(route);
        }
    }
}

/// What a permission to write opens changes something, but for the two requests that hand out a
/// private key.
pub proof fn permission_to_write_is_for_changes(route: Seq<char>)
    ensures
        access_of(route) == Some(Access::Needs(Permission::RulesWrite)) ==> !has_prefix(route, "GET "@),
        access_of(route) == Some(Access::Needs(Permission::NatWrite)) ==> !has_prefix(route, "GET "@),
        access_of(route) == Some(Access::Needs(Permission::VpnWrite)) ==> !has_prefix(route, "GET "@),
        access_of(route) == Some(Access::Needs(Permission::GeoipWrite)) ==> !has_prefix(route, "GET "@),
        access_of(route) == Some(Access::Needs(Permission::IdsWrite)) ==> !has_prefix(route, "GET "@),
        access_of(route) == Some(Access::Needs(Permission::DnsWrite)) ==> !has_prefix(route, "GET "@),
        access_of(route) == Some(Access::Needs(Permission::DhcpWrite)) ==> !has_prefix(route, "GET "@),
        access_of(route) == Some(Access::Needs(Permission::AliasesWrite)) ==> !has_prefix(route, "GET "@),
        access_of(route) == Some(Access::Needs(Permission::InterfacesWrite)) ==> !has_prefix(route, "GET "@),
        access_of(route) == Some(Access::Needs(Permission::UsersWrite)) ==> !has_prefix(route, "GET "@),
        access_of(route) == Some(Access::Needs(Permission::SettingsWrite)) ==> !has_prefix(route, "GET "@)
            || route == "GET /api/v1/ca/certs/{id}/key.pem"@ || route == "GET /api/v1/acme/certs/{id}/key.pem"@,
        access_of(route) == Some(Access::Needs(Permission::PluginsWrite)) ==> !has_prefix(route, "GET "@),
        access_of(route) == Some(Access::Needs(Permission::UpdatesInstall)) ==> !has_prefix(route, "GET "@),
        access_of(route) == Some(Access::Needs(Permission::BackupWrite)) ==> !has_prefix(route, "GET "@),
        access_of(route) == Some(Access::Needs(Permission::SystemReboot)) ==> !has_prefix(route, "GET "@),
        access_of(route) == Some(Access::Needs(Permission::ProxyWrite)) ==> !has_prefix(route, "GET "@),
        access_of(route) == Some(Access::Needs(Permission::MultiWanWrite)) ==> !has_prefix(route, "GET "@),
        access_of(route) == Some(Access::Needs(Permission::HaManage)) ==> !has_prefix(route, "GET "@),
{
    if access_of(route) == Some(Access::Needs(Permission::RulesWrite)) {
        if listed(RULES_WRITE@, route) {
            lemma_rules_write(route);
        }
        if listed(SHAPER_WRITE@, route) {
            lemma_shaper_write(route);
        }
    }
    if access_of(route) == Some(Access::Needs(Permission::NatWrite)) {
        if listed(NAT_WRITE@, route) {
            lemma_nat_write(route);
        }
    }
    if access_of(route) == Some(Access::Needs(Permission::VpnWrite)) {
        if listed(VPN_WRITE@, route) {
            lemma_vpn_write(route);
        }
    }
    if access_of(route) == Some(Access::Needs(Permission::GeoipWrite)) {
        if listed(GEOIP_WRITE@, route) {
            lemma_geoip_write(route);
        }
    }
    if access_of(route) == Some(Access::Needs(Permission::IdsWrite)) {
        if listed(IDS_WRITE@, route) {
            lemma_ids_write(route);
        }
    }
    if access_of(route) == Some(Access::Needs(Permission::DnsWrite)) {
        if listed(DNS_WRITE@, route) {
            lemma_dns_write(route);
        }
    }
    if access_of(route) == Some(Access::Needs(Permission::DhcpWrite)) {
        if listed(DHCP_WRITE@, route) {
            lemma_dhcp_write(route);
        }
    }
    if access_of(route) == Some(Access::Needs(Permission::AliasesWrite)) {
        if listed(ALIASES_WRITE@, route) {
            lemma_aliases_write(route);
        }
    }
    if access_of(route) == Some(Access::Needs(Permission::InterfacesWrite)) {
        if listed(IFACES_WRITE@, route) {
            lemma_ifaces_write(route);
        }
    }
    if access_of(route) == Some(Access::Needs(Permission::UsersWrite)) {
        if listed(USERS_WRITE@, route) {
            lemma_users_write(route);
        }
    }
    if access_of(route) == Some(Access::Needs(Permission::SettingsWrite)) {
        if listed(SETTINGS_WRITE@, route) {
            lemma_settings_write(route);
        }
        if listed(SYSTEM_WRITE@, route) {
            lemma_system_write(route);
        }
    }
    if access_of(route) == Some(Access::Needs(Permission::PluginsWrite)) {
        if listed(PLUGINS_WRITE@, route) {
            lemma_plugins_write(route);
        }
    }
    if access_of(route) == Some(Access::Needs(Permission::UpdatesInstall)) {
        if listed(UPDATES_INSTALL@, route) {
            lemma_updates_install(route);
        }
        if listed(UPDATES_INSTALL_LOCAL@, route) {
            lemma_updates_install_local(route);
        }
    }
    if access_of(route) == Some(Access::Needs(Permission::BackupWrite)) {
        if listed(BACKUP_WRITE@, route) {
            lemma_backup_write(route);
        }
    }
    if access_of(route) == Some(Access::Needs(Permission::SystemReboot)) {
        if listed(SYSTEM_REBOOT@, route) {
            lemma_system_reboot(route);
        }
    }
    if access_of(route) == Some(Access::Needs(Permission::ProxyWrite)) {
        if listed(PROXY_WRITE@, route) {
            lemma_proxy_write(route);
        }
    }
    if access_of(route) == Some(Access::Needs(Permission::MultiWanWrite)) {
        if listed(MULTIWAN_WRITE@, route) {
            lemma_multiwan_write(route);
        }
    }
    if access_of(route) == Some(Access::Needs(Permission::HaManage)) {
        if listed(CLUSTER@, route) {
            lemma_cluster(route);
        }
    }
}

} // verus!
