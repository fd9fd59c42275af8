use aifw_api::backup::check::{check_config, CheckReadings, NatForward};
use aifw_api::backup::cluster::{
    apply_cluster_snapshot, cluster_export_payload, restore_failed, ClusterSnapshotPayload, IdsRuleOverride,
    IdsSuppressionRecord, PeerKeys,
};
use aifw_api::backup::confirm::{confirm_request, CommitConfirm};
use aifw_api::backup::convert::{
    carp_vip_from_config, cluster_node_from_config, nat_from_config, pfsync_from_config, queue_from_config,
    rate_limit_from_config, rule_from_config, sni_rule_from_config, CarpVip, ClusterNode, NatRule, PfsyncConfig, QueueConfig,
    RateLimitRule, Rule, RuleMatch, SniRule,
};
use aifw_api::backup::current::{
    build_current_config, build_dhcp_section, build_static_routes_section, capture_runtime_snapshot, limit_entry, nat_entry,
    node_entry, queue_entry, resolv_nameservers, rule_entry, sni_entry, subnet_from_row, vip_entry, CurrentState, DhcpTables, RouteRow, SubnetRow, TunnelPeer,
};
use aifw_api::backup::dhcp::{
    is_option_override_safe, validate_dhcp, DhcpOptionOverrideConfig, DhcpReservationConfig, DhcpSection, DhcpSubnetConfig,
};
use aifw_api::backup::dhcp_settings::{
    load_ddns, load_global, load_ha, save_ddns, save_global, save_ha, DhcpDdnsSection, DhcpGlobalSection, DhcpHaSection,
};
use aifw_api::backup::interfaces::{
    build_import_preview, collect_interface_refs, compute_drop_summary, map_iface, suggest_interface, InterfaceInfo, InterfaceMap,
};
use aifw_api::backup::model::{
    Address, AliasConfig, AuthConfig, CarpVipConfig, Checked, ClusterNodeConfig, ConfigAddress, FirewallConfig, HaConfig,
    NatRuleConfig, PfsyncEntry, PortRange, RuleConfig, StaticRouteConfig, SystemConfig, TlsConfig, VpnConfig,
    WireguardPeerConfig, WireguardTunnelConfig,
};
use aifw_api::backup::entities::{entity_of, Entity};
use aifw_api::backup::plan::{apply_firewall_config, live_op_required, plan_revert, LiveOp, RowOp, Table};
use aifw_api::backup::run::{apply_firewall_config_or_rollback, audit_text, needs_rollback, AuditNote, Run, RunAction, RunEnd};
use aifw_api::backup::snapshot::{after_request, should_skip_auto_snapshot, AfterRequest, AutoSnapshotPending};
use aifw_api::backup::validate::validate_restore_target;
use aifw_api::backup::versions::{history_limit, restored_message, saved_message, HistoryParams};
use aifw_api::dns_resolver::config::ResolverConfig;
use aifw_api::identifiers::EntityId;
use aifw_api::kv::KeyValue;
use aifw_api::status::Status;

const ID: &str = "550e8400-e29b-41d4-a716-446655440000";

fn text(s: &str) -> String {
    s.to_string()
}

fn address(s: &str) -> ConfigAddress {
    ConfigAddress { text: text(s), parsed: Some(Address::Literal(text(s))) }
}

fn global() -> DhcpGlobalSection {
    DhcpGlobalSection {
        enabled: false,
        interfaces: Vec::new(),
        authoritative: true,
        default_lease_time: 3600,
        max_lease_time: 7200,
        dns_servers: Vec::new(),
        domain_name: text("lan"),
        domain_search: Vec::new(),
        ntp_servers: Vec::new(),
        wins_servers: Vec::new(),
        next_server: None,
        boot_filename: None,
        log_level: text("info"),
        log_format: text("text"),
        api_port: 9967,
        workers: 1,
        accept_relayed: false,
        relay_rate_limit_burst: 10,
        relay_rate_limit_pps: text("5.0"),
    }
}

fn ddns() -> DhcpDdnsSection {
    DhcpDdnsSection {
        enabled: false,
        forward_zone: String::new(),
        reverse_zone_v4: String::new(),
        reverse_zone_v6: String::new(),
        dns_server: String::new(),
        tsig_key: String::new(),
        tsig_algorithm: text("hmac-sha256"),
        tsig_secret: String::new(),
        ttl: 300,
    }
}

fn ha() -> DhcpHaSection {
    DhcpHaSection {
        mode: text("standalone"),
        peer: None,
        listen: None,
        scope_split: None,
        mclt: None,
        partner_down_delay: None,
        node_id: None,
        peers: None,
        tls_cert: None,
        tls_key: None,
        tls_ca: None,
    }
}

fn dhcp() -> DhcpSection {
    DhcpSection { global: global(), subnets: Vec::new(), reservations: Vec::new(), ddns: ddns(), dhcp_ha: ha() }
}

fn resolver() -> ResolverConfig {
    ResolverConfig {
        backend: text("rdns"),
        enabled: true,
        dhcp_domain: text("lan"),
        listen_interfaces: vec![text("0.0.0.0")],
        port: 53,
        dnssec: true,
        dns64: false,
        dns64_prefix: text("64:ff9b::/96"),
        register_dhcp: true,
        local_zone_type: text("transparent"),
        outgoing_interface: None,
        num_threads: 2,
        msg_cache_size: text("8m"),
        rrset_cache_size: text("16m"),
        cache_max_ttl: 86400,
        cache_min_ttl: 0,
        prefetch: true,
        prefetch_key: true,
        infra_host_ttl: 900,
        unwanted_reply_threshold: 0,
        log_queries: false,
        log_replies: false,
        log_verbosity: 1,
        query_timeout_ms: 0,
        hide_identity: true,
        hide_version: true,
        rebind_protection: true,
        private_addresses: Vec::new(),
        forwarding_enabled: true,
        forwarding_servers: vec![text("1.1.1.1")],
        use_system_nameservers: false,
        dot_enabled: false,
        dot_upstream: Vec::new(),
        blocklists_enabled: false,
        blocklist_urls: Vec::new(),
        whitelist: Vec::new(),
        blocklist_action: text("nxdomain"),
        blocklist_redirect_ip: None,
        custom_options: String::new(),
        probe_enabled: true,
    }
}

fn config() -> FirewallConfig {
    FirewallConfig {
        schema_version: 1,
        system: SystemConfig {
            hostname: text("fw"),
            dns_servers: Vec::new(),
            wan_interface: String::new(),
            lan_interface: None,
            lan_ip: None,
            api_listen: text("0.0.0.0"),
            api_port: 8080,
            ui_enabled: true,
        },
        auth: AuthConfig {
            access_token_expiry_mins: 60,
            refresh_token_expiry_days: 7,
            require_totp: false,
            require_totp_for_oauth: false,
            auto_create_oauth_users: true,
        },
        rules: Vec::new(),
        nat: Vec::new(),
        queues: Vec::new(),
        rate_limits: Vec::new(),
        vpn: VpnConfig { wireguard: Vec::new(), ipsec: Vec::new(), ipsec_tunnels: Vec::new() },
        geoip: Vec::new(),
        tls: TlsConfig {
            min_version: text("tls12"),
            block_self_signed: false,
            block_expired: true,
            block_weak_keys: true,
            blocked_ja3: Vec::new(),
            sni_rules: Vec::new(),
        },
        ha: HaConfig { carp_vips: Vec::new(), pfsync: None, nodes: Vec::new() },
        tuning: Vec::new(),
        dhcp: dhcp(),
        aliases: Vec::new(),
        static_routes: Vec::new(),
        dns_resolver: None,
    }
}

fn rule(interface: Option<&str>) -> RuleConfig {
    RuleConfig {
        id: text(ID),
        priority: 100,
        action: text("pass"),
        direction: text("in"),
        protocol: text("tcp"),
        interface: interface.map(text),
        src_addr: None,
        src_port_start: None,
        src_port_end: None,
        dst_addr: Some(address("10.0.0.5")),
        dst_port_start: Some(443),
        dst_port_end: None,
        log: true,
        quick: true,
        label: Some(text("web")),
        state_tracking: text("keep_state"),
        status: text("active"),
        ip_version: text("both"),
        src_invert: false,
        dst_invert: true,
        schedule_id: None,
        gateway: None,
    }
}

fn translation(interface: &str) -> NatRuleConfig {
    NatRuleConfig {
        id: text(ID),
        nat_type: text("dnat"),
        interface: text(interface),
        protocol: text("tcp"),
        src_addr: None,
        src_port_start: None,
        src_port_end: None,
        dst_addr: None,
        dst_port_start: Some(80),
        dst_port_end: Some(90),
        redirect_addr: address("10.0.0.9"),
        redirect_port_start: None,
        redirect_port_end: None,
        label: None,
        status: text("active"),
    }
}

fn tunnel(interface: &str, port: u16) -> WireguardTunnelConfig {
    WireguardTunnelConfig {
        id: text(ID),
        name: text("wg"),
        interface: text(interface),
        listen_port: port,
        address: address("10.9.0.1/24"),
        address6: None,
        private_key: text("priv"),
        public_key: text("pub"),
        dns: None,
        mtu: None,
        peers: Vec::new(),
    }
}

fn none() -> InterfaceMap {
    InterfaceMap::new()
}

// Snapshots after changes

#[test]
fn skips_non_structural_routes() {
    for path in [
        "/api/v1/ids/alerts/42/acknowledge",
        "/api/v1/ids/alerts/42/classify",
        "/api/v1/ids/suppressions",
        "/api/v1/ids/config",
        "/api/v1/ai/analyze",
        "/api/v1/connections/1234",
        "/api/v1/auth/ws-ticket",
        "/api/v1/notify/smtp/test",
        "/api/v1/settings/ai/test",
        "/api/v1/backup/s3/test",
        "/api/v1/config/save",
        "/api/v1/updates/install",
    ] {
        assert!(should_skip_auto_snapshot(path), "{path} should skip auto-snapshot");
    }
}

#[test]
fn snapshots_structural_routes() {
    for path in [
        "/api/v1/rules",
        "/api/v1/rules/reorder",
        "/api/v1/nat",
        "/api/v1/vpn/wg",
        "/api/v1/geoip",
        "/api/v1/aliases",
        "/api/v1/dhcp/v4/subnets",
        "/api/v1/settings/pf-tuning",
    ] {
        assert!(!should_skip_auto_snapshot(path), "{path} should auto-snapshot");
    }
}

#[test]
fn changes_lead_to_snapshots() {
    assert_eq!(after_request("GET", "/api/v1/rules", true), AfterRequest::Nothing);
    assert_eq!(after_request("POST", "/api/v1/rules", false), AfterRequest::Nothing);
    assert_eq!(after_request("POST", "/api/v1/rules", true), AfterRequest::InvalidateAndSnapshot);
    assert_eq!(after_request("POST", "/api/v1/ai/analyze", true), AfterRequest::Invalidate);
}

#[test]
fn burst_is_one_snapshot() {
    let mut p = AutoSnapshotPending::new();
    assert!(p.note("POST", "/api/v1/rules"));
    assert!(!p.note("PUT", "/api/v1/nat"));
    assert!(!p.note("DELETE", "/api/v1/geoip"));
    assert_eq!(p.take(), "DELETE /api/v1/geoip (+2 coalesced)");
    assert!(p.note("POST", "/api/v1/rules"));
    assert_eq!(p.take(), "POST /api/v1/rules");
}

// Versions

#[test]
fn versions_are_named() {
    assert_eq!(history_limit(HistoryParams { limit: None }), 50);
    assert_eq!(history_limit(HistoryParams { limit: Some(3) }), 3);
    assert_eq!(saved_message(7), "Config saved as version 7");
    assert_eq!(restored_message(-1), "Restored to version -1");
}

// Confirmation

#[test]
fn change_waits_for_its_confirmation() {
    assert_eq!(confirm_request(None, None), (300, text("Config change")));
    let mut c = CommitConfirm::new();
    let m = c.arm(text("{}"), true, text("d"), 60, 90_000_000_000, text("then")).ok().unwrap();
    assert!(m.starts_with("Commit confirm started. You have 60 seconds to confirm."));
    assert!(matches!(c.arm(text("{}"), true, text("d"), 60, 0, text("t")), Err(Status::Conflict)));
    let s = c.status(30_500_000_000);
    assert_eq!((s.active, s.seconds_remaining, s.expires_at.as_str()), (true, 59, "then"));
    assert_eq!(c.status(95_000_000_000).seconds_remaining, 0);
    assert_eq!(c.accept(), "Configuration confirmed and accepted permanently.");
    assert_eq!(c.accept(), "No pending commit confirm to accept.");
    assert_eq!(c.expire(), None);
    assert!(!c.status(0).active);
}

#[test]
fn change_that_is_not_confirmed_is_put_back() {
    let mut c = CommitConfirm::new();
    assert!(matches!(c.arm(text("broken"), false, text("d"), 60, 0, text("t")), Err(Status::Internal)));
    c.arm(text("{\"a\":1}"), true, text("d"), 60, 0, text("t")).ok().unwrap();
    assert_eq!(c.expire().as_deref(), Some("{\"a\":1}"));
    assert_eq!(c.expire(), None);
}

// Entries and entities

fn live_rule() -> Rule {
    Rule {
        id: EntityId::Kept(text(ID)),
        priority: 5,
        action: text("pass"),
        direction: text("in"),
        ip_version: text("inet"),
        interface: Some(text("em0")),
        protocol: text("tcp"),
        rule_match: RuleMatch {
            src_addr: Address::Any,
            src_port: None,
            dst_addr: Address::Literal(text("10.0.0.1")),
            dst_port: Some(PortRange { start: 1, end: 9 }),
        },
        src_invert: false,
        dst_invert: true,
        log: true,
        quick: false,
        label: None,
        description: Some(text("gone")),
        gateway: Some(text("gw")),
        state_tracking: text("keep_state"),
        status: text("active"),
        schedule_id: Some(text("s")),
    }
}

fn live_nat() -> NatRule {
    NatRule {
        id: EntityId::Kept(text(ID)),
        nat_type: text("dnat"),
        interface: text("em0"),
        protocol: text("tcp"),
        src_addr: Address::Any,
        src_port: None,
        dst_addr: Address::Any,
        dst_port: Some(PortRange { start: 80, end: 80 }),
        redirect_addr: Address::Literal(text("10.0.0.9")),
        redirect_port: None,
        label: None,
        status: text("active"),
    }
}

#[test]
fn rule_comes_back_as_it_was() {
    let c = rule_entry(&live_rule());
    assert_eq!(c.src_addr.as_ref().unwrap().text, "any");
    assert_eq!((c.dst_port_start, c.dst_port_end), (Some(1), Some(9)));
    let r = rule_from_config(&c).unwrap();
    assert!(matches!(&r.id, EntityId::Kept(t) if t == ID));
    assert_eq!(r.ip_version, "inet");
    assert_eq!(r.gateway.as_deref(), Some("gw"));
    assert_eq!(r.rule_match.dst_port, Some(PortRange { start: 1, end: 9 }));
    assert!(matches!(&r.rule_match.src_addr, Address::Any));
    assert_eq!(r.description, None);
    assert!(r.dst_invert && !r.src_invert);
}

#[test]
fn translation_comes_back_as_it_was() {
    let n = nat_from_config(&nat_entry(&live_nat())).unwrap();
    assert_eq!(n.dst_port, Some(PortRange { start: 80, end: 80 }));
    assert!(matches!(&n.redirect_addr, Address::Literal(t) if t == "10.0.0.9"));
}

#[test]
fn entries_that_do_not_parse() {
    let mut r = rule(None);
    r.dst_addr = Some(ConfigAddress { text: text("x"), parsed: None });
    assert!(rule_from_config(&r).is_none());
    let mut r = rule(None);
    r.id = text("no-uuid");
    assert!(matches!(rule_from_config(&r).unwrap().id, EntityId::Fresh));
    let vip = |ip: &str| CarpVipConfig {
        id: text(ID),
        vhid: 1,
        virtual_ip: text(ip),
        prefix: 24,
        interface: text("em0"),
        password: text("p"),
    };
    assert!(carp_vip_from_config(&vip("10.0.0.1")).is_some());
    assert!(carp_vip_from_config(&vip("ten")).is_none());
    let sync = |peer: Option<&str>| PfsyncEntry { sync_interface: text("em2"), sync_peer: peer.map(text), defer: true };
    assert!(pfsync_from_config(&sync(Some("10.0.0.2"))).is_some());
    let node = |valid: bool| ClusterNodeConfig {
        id: text(ID),
        name: text("n"),
        address: text("10.0.0.3"),
        role: Checked { text: text("primary"), valid },
    };
    assert!(cluster_node_from_config(&node(true)).is_some());
    assert!(cluster_node_from_config(&node(false)).is_none());
}

// The running configuration

fn state() -> CurrentState {
    let peer = |tunnel: &str, name: &str| TunnelPeer {
        tunnel_id: text(tunnel),
        peer: WireguardPeerConfig {
            id: text(ID),
            name: text(name),
            public_key: text("k"),
            preshared_key: None,
            endpoint: None,
            allowed_ips: vec![address("10.9.0.2/32")],
            persistent_keepalive: None,
        },
    };
    CurrentState {
        hostname_file: Some(text(" gate \n")),
        resolv_conf: text("search lan\nnameserver 1.1.1.1\nnameserver\t9.9.9.9 \n # nameserver 8.8.8.8\n"),
        access_token_expiry_mins: 60,
        refresh_token_expiry_days: 7,
        require_totp: true,
        rules: vec![live_rule()],
        nat: vec![live_nat()],
        queues: Vec::new(),
        rate_limits: Vec::new(),
        tunnels: vec![tunnel("wg0", 51820)],
        peers: vec![peer(ID, "mine"), peer("other", "theirs")],
        ipsec: Vec::new(),
        ipsec_tunnels: Vec::new(),
        geoip: Vec::new(),
        sni_rules: Vec::new(),
        ja3: vec![text("hash")],
        carp_vips: vec![CarpVip {
            id: EntityId::Kept(text(ID)),
            vhid: 1,
            virtual_ip: text("10.0.0.1"),
            prefix: 24,
            interface: text("em0"),
            password: text("p"),
        }],
        pfsync: Some(PfsyncConfig { sync_interface: text("em2"), sync_peer: None, defer: true }),
        nodes: vec![ClusterNode {
            id: EntityId::Kept(text(ID)),
            name: text("n1"),
            address: text("10.0.0.2"),
            role: text("primary"),
        }],
        max_states: 100_000,
        dhcp: dhcp(),
        aliases: Vec::new(),
        static_routes: Vec::new(),
        resolver: resolver(),
    }
}

#[test]
fn running_configuration_is_put_together() {
    let c = build_current_config(state());
    assert_eq!(c.schema_version, 1);
    assert_eq!(c.system.hostname, "gate");
    assert_eq!(c.system.dns_servers, vec!["1.1.1.1", "9.9.9.9"]);
    assert!(c.auth.require_totp);
    assert_eq!(c.rules.len(), 1);
    assert_eq!(c.vpn.wireguard[0].peers.len(), 1);
    assert_eq!(c.vpn.wireguard[0].peers[0].name, "mine");
    assert_eq!(c.tls.blocked_ja3, vec!["hash"]);
    assert_eq!(c.tuning[0].value, "100000");
    assert_eq!(c.tuning[0].key, "pf.max_states");
    assert_eq!(c.ha.nodes[0].role.text, "primary");
    assert!(c.ha.pfsync.is_some());
    assert_eq!(c.dns_resolver.as_ref().unwrap().backend, "rdns");
    assert_eq!(validate_restore_target(&c, &none()), Ok(()));
}

#[test]
fn host_without_a_name_is_aifw() {
    let mut s = state();
    s.hostname_file = Some(text("\n"));
    assert_eq!(build_current_config(s).system.hostname, "aifw");
    let mut s = state();
    s.hostname_file = None;
    assert_eq!(build_current_config(s).system.hostname, "aifw");
}

#[test]
fn runtime_snapshot_has_four_sections() {
    let route = StaticRouteConfig {
        id: text(ID),
        destination: text("10.1.0.0/16"),
        gateway: text("10.0.0.1"),
        interface: None,
        metric: 0,
        enabled: true,
        description: None,
        fib: 0,
    };
    let c = capture_runtime_snapshot(&vec![live_rule()], &vec![live_nat()], Vec::new(), vec![route], config());
    assert_eq!((c.rules.len(), c.nat.len(), c.static_routes.len()), (1, 1, 1));
    assert_eq!(c.system.hostname, "fw");
}

#[test]
fn rows_become_entries() {
    assert_eq!(resolv_nameservers("nameserver 1.1.1.1\n nameserver 2.2.2.2"), vec!["1.1.1.1"]);
    let r = build_static_routes_section(vec![RouteRow {
        id: text("r"),
        destination: text("d"),
        gateway: text("g"),
        interface: None,
        metric: 5,
        enabled: true,
        description: None,
        fib: 1 << 33,
    }]);
    assert_eq!((r[0].metric, r[0].fib), (5, 0));
    let row = SubnetRow {
        id: text("s"),
        network: text("10.0.0.0/24"),
        pool_start: text("10.0.0.10"),
        pool_end: text("10.0.0.20"),
        gateway: text("10.0.0.1"),
        dns_servers: None,
        domain_name: None,
        lease_time: Some(3600),
        max_lease_time: Some(-1),
        renewal_time: None,
        rebinding_time: None,
        preferred_time: None,
        subnet_type: None,
        delegated_length: Some(56),
        enabled: true,
        description: None,
        trusted_relays: Some(text("[\"10.0.0.2\",\"10.0.0.3\"]")),
        ntp_servers: None,
        options: Vec::new(),
        created_at: text("now"),
    };
    let s = subnet_from_row(row.clone());
    assert_eq!(s.subnet_type, "address");
    assert_eq!(s.max_lease_time, Some(u32::MAX));
    assert_eq!(s.delegated_length, Some(56));
    assert_eq!(s.trusted_relays, vec!["10.0.0.2", "10.0.0.3"]);
    let mut bad = row;
    bad.trusted_relays = Some(text("oops"));
    let d = build_dhcp_section(DhcpTables {
        config: Vec::new(),
        subnets: vec![bad],
        reservations: Vec::new(),
        ddns: Vec::new(),
        ha: Vec::new(),
        default_global: global(),
        default_ddns: ddns(),
        default_ha: ha(),
    });
    assert!(d.subnets[0].trusted_relays.is_empty());
    assert_eq!(d.global.domain_name, "lan");
}

#[test]
fn dhcp_settings_are_stored_and_read_back() {
    let mut g = global();
    g.enabled = true;
    g.interfaces = vec![text("em1"), text("em2")];
    g.next_server = Some(text("10.0.0.4"));
    let back = load_global(&save_global(&g), global());
    assert!(back.enabled);
    assert_eq!(back.interfaces, vec!["em1", "em2"]);
    assert_eq!(back.next_server.as_deref(), Some("10.0.0.4"));
    let mut d = ddns();
    d.ttl = 60;
    assert_eq!(load_ddns(&save_ddns(&d), ddns()).ttl, 60);
    let mut h = ha();
    h.mclt = Some(30);
    h.peers = Some(vec![text("a"), text("b")]);
    let back = load_ha(&save_ha(&h), ha());
    assert_eq!(back.mclt, Some(30));
    assert_eq!(back.peers, Some(vec![text("a"), text("b")]));
}

// The check

fn readings() -> CheckReadings {
    CheckReadings {
        rules: Vec::new(),
        nat: Vec::new(),
        geoip_rules: 0,
        wg_tunnels: 0,
        ipsec_sas: 0,
        ipsec_tunnels: 0,
        resolv_conf: text("nameserver 1.1.1.1\n"),
        static_routes: 0,
        pf_responds: true,
        dhcp: dhcp(),
    }
}

#[test]
fn empty_firewall_is_reported() {
    let r = check_config(&readings());
    assert!(r.valid);
    assert_eq!(
        r.info,
        vec![
            "0 firewall rules configured",
            "0 NAT rules configured",
            "1 DNS nameserver(s) configured",
            "pf firewall is responding",
        ]
    );
    assert_eq!(
        r.warnings,
        vec!["No firewall rules configured — all traffic may be blocked or allowed by default"]
    );
}

#[test]
fn faults_are_reported() {
    let mut c = readings();
    let mut open = live_rule();
    open.rule_match.dst_addr = Address::Any;
    open.rule_match.dst_port = None;
    c.rules = vec![live_rule(), open];
    let n = || NatForward { interface: text("em0"), protocol: text("Tcp"), redirect: text("10.0.0.9") };
    c.nat = vec![n(), n()];
    c.resolv_conf = String::new();
    c.pf_responds = false;
    c.wg_tunnels = 2;
    c.static_routes = 3;
    let r = check_config(&c);
    assert!(!r.valid);
    assert_eq!(r.errors, vec!["No DNS nameservers configured in /etc/resolv.conf"]);
    assert_eq!(
        r.warnings,
        vec![
            "Rule '550e8400' passes all traffic (any -> any, no port restriction)",
            "Possible duplicate NAT forward on em0",
            "pf firewall is not responding — rules may not be loaded",
        ]
    );
    assert!(r.info.contains(&text("2 WireGuard tunnel(s)")));
    assert!(r.info.contains(&text("3 static route(s)")));
}

fn subnet() -> DhcpSubnetConfig {
    DhcpSubnetConfig {
        id: text("s1"),
        network: text("10.0.0.0/24"),
        pool_start: text("10.0.0.10"),
        pool_end: text("10.0.0.20"),
        gateway: text("10.0.0.1"),
        dns_servers: None,
        domain_name: None,
        lease_time: None,
        max_lease_time: None,
        renewal_time: None,
        rebinding_time: None,
        preferred_time: None,
        subnet_type: text("address"),
        delegated_length: None,
        enabled: true,
        description: None,
        trusted_relays: Vec::new(),
        ntp_servers: None,
        options: Vec::new(),
        created_at: text("now"),
    }
}

#[test]
fn dhcp_faults_are_found() {
    let mut d = dhcp();
    d.global.enabled = true;
    d.subnets = vec![subnet()];
    d.subnets[0].pool_end = text("10.0.1.20");
    d.reservations = vec![DhcpReservationConfig {
        id: text("r"),
        subnet_id: Some(text("s1")),
        mac_address: text("00:11:22:33:44:55"),
        ip_address: text("10.0.0.99"),
        hostname: None,
        client_id: None,
        description: None,
        created_at: text("now"),
    }];
    let (mut errors, mut warnings, mut info) = (Vec::new(), Vec::new(), Vec::new());
    validate_dhcp(&d, &mut errors, &mut warnings, &mut info);
    assert!(!errors.is_empty(), "a pool outside its network is an error");
    let (mut errors, mut warnings, mut info) = (Vec::new(), Vec::new(), Vec::new());
    validate_dhcp(&dhcp(), &mut errors, &mut warnings, &mut info);
    assert!(errors.is_empty() && warnings.is_empty() && info.is_empty());
}

#[test]
fn options_are_checked() {
    let o = |code: u8, kind: &str, value: &str| DhcpOptionOverrideConfig {
        code,
        value_type: text(kind),
        value: text(value),
    };
    assert!(is_option_override_safe(&o(66, "string", "tftp.lan")));
    assert!(is_option_override_safe(&o(150, "ip", "10.0.0.1")));
    assert!(!is_option_override_safe(&o(53, "u8", "1")));
    assert!(!is_option_override_safe(&o(3, "ip", "10.0.0.1")));
    assert!(!is_option_override_safe(&o(150, "ip", "ten")));
}

// Interfaces

fn port(name: &str) -> InterfaceInfo {
    InterfaceInfo { name: text(name), mac: None, ipv4: None, ipv6: None, ipv4_mode: None, status: text("up") }
}

#[test]
fn interfaces_are_mapped() {
    let mut m = none();
    m.insert(text("em0"), Some(text("igb0")));
    m.insert(text("em1"), None);
    assert_eq!(map_iface("em0", &m).as_deref(), Some("igb0"));
    assert_eq!(map_iface("em1", &m), None);
    assert_eq!(map_iface("em2", &m).as_deref(), Some("em2"));
    assert_eq!(map_iface("em0", &none()).as_deref(), Some("em0"));
}

#[test]
fn preview_names_what_is_missing() {
    let mut c = config();
    c.rules = vec![rule(Some("em0")), rule(Some("em1")), rule(None)];
    c.nat = vec![translation("em1")];
    c.vpn.wireguard = vec![tunnel("wg0", 1)];
    let refs = collect_interface_refs(&c);
    assert!(refs.contains(&text("em0")) && refs.contains(&text("em1")));
    let d = compute_drop_summary(&c, &vec![text("em1")]);
    assert_eq!((d.rules, d.nat), (1, 1));
    let p = build_import_preview(&c, vec![port("em0"), port("em5"), port("wg0")]);
    assert_eq!(p.interfaces_missing, vec!["em1"]);
    assert_eq!(p.drop_summary_if_unmapped.rules, 1);
    assert_eq!(suggest_interface("em1", &vec![port("em5")]).as_deref(), Some("em5"));
    assert_eq!(suggest_interface("ix0", &vec![port("ixl0"), port("ix1")]).as_deref(), Some("ix1"));
    assert_eq!(suggest_interface("ix0", &vec![port("lo0"), port("ixl0")]).as_deref(), Some("ixl0"));
    assert_eq!(suggest_interface("ix0", &vec![port("lo0"), port("pflog0")]), None);
}

// Restoring

#[test]
fn restore_refuses_what_is_not_valid() {
    let mut c = config();
    c.rules = vec![rule(None)];
    assert_eq!(validate_restore_target(&c, &none()), Ok(()));
    c.rules[0].priority = 10_001;
    assert_eq!(validate_restore_target(&c, &none()), Err(Status::BadRequest));
    let mut c = config();
    c.vpn.wireguard = vec![tunnel("wg0", 51820), tunnel("wg1", 51820)];
    assert_eq!(validate_restore_target(&c, &none()), Err(Status::BadRequest));
    assert!(apply_firewall_config(&c, &none()).is_err());
    let mut c = config();
    c.aliases = vec![AliasConfig {
        id: text(ID),
        name: text("a"),
        alias_type: Checked { text: text("odd"), valid: false },
        entries: Vec::new(),
        description: None,
        enabled: true,
    }];
    assert_eq!(validate_restore_target(&c, &none()), Err(Status::BadRequest));
}

#[test]
fn restore_fills_the_tables() {
    let mut c = config();
    c.rules = vec![rule(Some("em0")), rule(Some("em1"))];
    let mut m = none();
    m.insert(text("em1"), None);
    let p = apply_firewall_config(&c, &m).ok().unwrap();
    let added: Vec<Option<&str>> = p
        .rows
        .iter()
        .filter_map(|o| match o {
            RowOp::AddRule { interface, .. } => Some(interface.as_deref()),
            _ => None,
        })
        .collect();
    assert_eq!(added, vec![Some("em0")]);
    assert!(p.rows.iter().any(|o| matches!(o, RowOp::Clear(Table::Rules))));
    assert!(p.live.iter().any(|o| live_op_required(o)));
}

#[test]
fn old_backup_leaves_the_resolver_alone() {
    let puts = |c: &FirewallConfig| {
        let p = apply_firewall_config(c, &none()).ok().unwrap();
        p.rows.iter().filter(|o| matches!(o, RowOp::Put { table: Table::DnsResolverConfig, .. })).count()
    };
    assert_eq!(puts(&config()), 0);
    let mut c = config();
    c.dns_resolver = Some(resolver());
    assert!(puts(&c) >= 39);
}

#[test]
fn failed_row_ends_a_restore() {
    let mut r = Run::begin(3, vec![true]);
    assert_eq!(r.action(), RunAction::BeginTransaction);
    r.observe(true);
    assert_eq!(r.action(), RunAction::ChangeRow(0));
    r.observe(true);
    r.observe(false);
    assert_eq!(r.action(), RunAction::RollBackTransaction);
    r.observe(true);
    assert_eq!(r.action(), RunAction::Finish(RunEnd::NotCommitted));
    assert!(!r.committed);
}

#[test]
fn every_failing_stage_leaves_nothing_committed() {
    for stage in 0..3 {
        let mut r = Run::begin(2, Vec::new());
        r.observe(true);
        for _ in 0..stage {
            r.observe(true);
        }
        r.observe(false);
        while !matches!(r.action(), RunAction::Finish(_)) {
            r.observe(true);
        }
        assert_eq!(r.action(), RunAction::Finish(RunEnd::NotCommitted));
        assert!(!r.committed);
    }
}

#[test]
fn live_changes_come_behind_the_commit() {
    let mut r = Run::begin(0, vec![false, true]);
    r.observe(true);
    assert_eq!(r.action(), RunAction::CommitTransaction);
    r.observe(true);
    assert_eq!(r.action(), RunAction::ChangeLive(0));
    r.observe(false);
    assert_eq!(r.action(), RunAction::ChangeLive(1));
    r.observe(false);
    assert_eq!(r.action(), RunAction::Finish(RunEnd::LiveFailed));
}

#[test]
fn failed_restore_is_rolled_back_and_noted() {
    assert!(needs_rollback(RunEnd::LiveFailed) && !needs_rollback(RunEnd::Applied));
    assert_eq!(apply_firewall_config_or_rollback(RunEnd::Applied, RunEnd::Applied), (Ok(()), None));
    assert_eq!(
        apply_firewall_config_or_rollback(RunEnd::NotCommitted, RunEnd::Applied),
        (Err(Status::Internal), Some(AuditNote::RolledBack))
    );
    assert_eq!(
        apply_firewall_config_or_rollback(RunEnd::LiveFailed, RunEnd::LiveFailed),
        (Err(Status::Internal), Some(AuditNote::RollbackFailed))
    );
    assert!(audit_text(AuditNote::RollbackFailed).contains("rollback failed"));
}

// Clusters

fn override_of(id: &str, enabled: bool, action: Option<&str>) -> IdsRuleOverride {
    IdsRuleOverride { id: text(id), enabled, action_override: action.map(text) }
}

#[test]
fn snapshot_carries_changed_rules() {
    let rules = vec![override_of("a", true, None), override_of("b", false, None), override_of("c", true, Some("drop"))];
    let s = IdsSuppressionRecord { id: text("s"), sid: 1, suppress_type: text("by_src"), ip_cidr: None };
    let p = cluster_export_payload(config(), &rules, vec![s]);
    let ids: Vec<&str> = p.ids_rule_overrides.iter().map(|r| r.id.as_str()).collect();
    assert_eq!(ids, vec!["b", "c"]);
    assert_eq!(p.ids_suppressions.len(), 1);
}

fn payload() -> ClusterSnapshotPayload {
    cluster_export_payload(config(), &Vec::new(), Vec::new())
}

#[test]
fn local_keys_survive_a_snapshot() {
    let keys = |id: &str, key: Option<&str>, hash: Option<&str>| PeerKeys {
        id: text(id),
        key: key.map(text),
        hash: hash.map(text),
    };
    let saved = vec![keys("a", Some("k"), None), keys("b", None, None), keys("c", None, Some("h"))];
    let payload = payload();
    let p = apply_cluster_snapshot(&payload, None, &saved).ok().unwrap();
    let ids: Vec<&str> = p.keys.iter().map(|k| k.id.as_str()).collect();
    assert_eq!(ids, vec!["a", "c"]);
    assert_eq!(p.keys[0].key.as_deref(), Some("k"));
}

#[test]
fn bad_snapshot_is_refused() {
    let p = payload();
    assert_eq!(
        apply_cluster_snapshot(&p, Some(text("too many rules")), &Vec::new()).err(),
        Some(text("snapshot failed validation: too many rules"))
    );
    let mut p = payload();
    p.firewall.rules = vec![rule(None)];
    p.firewall.rules[0].priority = i32::MAX;
    assert_eq!(
        apply_cluster_snapshot(&p, None, &Vec::new()).err(),
        Some(text("apply_firewall_config failed: 400"))
    );
    assert_eq!(restore_failed(Status::Internal), "apply_firewall_config failed: 500");
}

fn kept() -> EntityId {
    EntityId::Kept("550e8400-e29b-41d4-a716-446655440000".to_string())
}

#[test]
fn queue_comes_back_from_a_backup() {
    let q = QueueConfig {
        id: kept(),
        interface: "em0".to_string(),
        queue_type: "codel".to_string(),
        bandwidth_value: 100,
        bandwidth_unit: "mbps".to_string(),
        name: "uplink".to_string(),
        traffic_class: "default".to_string(),
        bandwidth_pct: Some(40),
        default: true,
        status: "active".to_string(),
    };
    let back = queue_from_config(&queue_entry(&q));
    assert_eq!(format!("{back:?}"), format!("{q:?}"));
}

#[test]
fn limit_comes_back_for_any_address() {
    let r = RateLimitRule {
        id: kept(),
        name: "ssh".to_string(),
        interface: Some("em0".to_string()),
        protocol: "tcp".to_string(),
        src_addr: Address::Literal("192.0.2.0/24".to_string()),
        dst_addr: Address::Any,
        dst_port: Some(PortRange { start: 22, end: 22 }),
        max_connections: 5,
        window_secs: 30,
        overload_table: "bruteforce".to_string(),
        flush_states: true,
        status: "active".to_string(),
    };
    let back = rate_limit_from_config(&limit_entry(&r));
    let expected = RateLimitRule { src_addr: Address::Any, ..r };
    assert_eq!(format!("{back:?}"), format!("{expected:?}"));
}

#[test]
fn names_and_cluster_come_back_from_a_backup() {
    let sni = SniRule {
        id: kept(),
        pattern: "*.example.com".to_string(),
        action: "block".to_string(),
        label: Some("ads".to_string()),
    };
    assert_eq!(format!("{:?}", sni_rule_from_config(&sni_entry(&sni))), format!("{sni:?}"));
    let vip = CarpVip {
        id: kept(),
        vhid: 3,
        virtual_ip: "192.0.2.10".to_string(),
        prefix: 24,
        interface: "em1".to_string(),
        password: "shared".to_string(),
    };
    assert_eq!(format!("{:?}", carp_vip_from_config(&vip_entry(&vip)).unwrap()), format!("{vip:?}"));
    let node = ClusterNode {
        id: kept(),
        name: "b".to_string(),
        address: "192.0.2.2".to_string(),
        role: "secondary".to_string(),
    };
    assert_eq!(format!("{:?}", cluster_node_from_config(&node_entry(&node)).unwrap()), format!("{node:?}"));
}

fn static_route(interface: Option<&str>) -> StaticRouteConfig {
    StaticRouteConfig {
        id: text("r1"),
        destination: text("10.0.0.0/8"),
        gateway: text("192.168.1.1"),
        interface: interface.map(String::from),
        metric: 0,
        enabled: true,
        description: None,
        fib: 0,
    }
}

#[test]
fn interfaces_of_routes_are_found() {
    let mut c = config();
    c.static_routes = vec![static_route(Some("em9")), static_route(None)];
    assert_eq!(collect_interface_refs(&c), vec!["em9"]);
    let p = build_import_preview(&c, vec![port("em0")]);
    assert_eq!(p.interfaces_missing, vec!["em9"]);
    assert_eq!(p.suggestions.get("em9").map(String::as_str), Some("em0"));
}

#[test]
fn scopes_of_ipv6_are_not_checked() {
    let mut d = dhcp();
    d.subnets = vec![subnet()];
    d.subnets[0].network = text("2001:db8::/48");
    for kind in ["prefix-delegation", "address"] {
        d.subnets[0].subnet_type = text(kind);
        let (mut errors, mut warnings, mut info) = (Vec::new(), Vec::new(), Vec::new());
        validate_dhcp(&d, &mut errors, &mut warnings, &mut info);
        assert!(errors.is_empty() && warnings.is_empty());
        assert_eq!(info, vec!["1 DHCP subnet(s) configured"]);
    }
    d.subnets[0].network = text("nowhere");
    let (mut errors, mut warnings, mut info) = (Vec::new(), Vec::new(), Vec::new());
    validate_dhcp(&d, &mut errors, &mut warnings, &mut info);
    assert_eq!(warnings, vec!["DHCP subnet nowhere: invalid CIDR"]);
}

#[test]
fn route_that_cannot_be_added_does_not_end_a_restore() {
    let mut c = config();
    c.static_routes = vec![static_route(None)];
    let p = apply_firewall_config(&c, &none()).ok().unwrap();
    let routes: Vec<bool> =
        p.live.iter().filter(|o| matches!(o, LiveOp::ApplyRoute { .. })).map(live_op_required).collect();
    assert_eq!(routes, vec![false]);
    assert!(p.live.iter().filter(|o| matches!(o, LiveOp::ApplyRules)).all(live_op_required));
}

#[test]
fn revert_touches_rules_and_routes_only() {
    let mut c = config();
    c.rules = vec![rule(Some("em0"))];
    c.nat = vec![translation("em1")];
    c.static_routes = vec![static_route(None)];
    c.vpn.wireguard = vec![tunnel("wg0", 1)];
    c.dns_resolver = Some(resolver());
    let p = plan_revert(&c).ok().unwrap();
    let cleared: Vec<Table> = p
        .rows
        .iter()
        .filter_map(|o| match o {
            RowOp::Clear(t) => Some(*t),
            _ => None,
        })
        .collect();
    assert_eq!(cleared, vec![Table::Rules, Table::NatRules, Table::Aliases, Table::StaticRoutes]);
    assert_eq!(p.rows.len(), 7);
    assert!(!p.rows.iter().any(|o| matches!(o, RowOp::AddTunnel { .. } | RowOp::Put { .. } | RowOp::AddGeoIp { .. })));
    assert!(!p.live.iter().any(|o| matches!(o, LiveOp::ApplyGeoIp | LiveOp::ApplyQueues | LiveOp::RegenerateDhcp)));
    c.rules[0].priority = 10_001;
    assert_eq!(plan_revert(&c).err(), Some(Status::BadRequest));
}

#[test]
fn entries_become_entities_on_their_interface() {
    let mut c = config();
    c.rules = vec![rule(Some("em0"))];
    c.nat = vec![translation("em1")];
    let mut map = none();
    map.insert(text("em0"), Some(text("ix0")));
    let p = apply_firewall_config(&c, &map).ok().unwrap();
    let made: Vec<Entity> = p.rows.iter().filter_map(entity_of).collect();
    assert_eq!(made.len(), 2);
    assert!(matches!(&made[0], Entity::Rule(r) if r.interface.as_deref() == Some("ix0")));
    assert!(matches!(&made[1], Entity::Translation(n) if n.interface == "em1"));
    assert!(entity_of(&RowOp::Clear(Table::Rules)).is_none());
}

#[test]
fn fractions_that_are_none_fall_back() {
    let row = |key: &str, value: &str| KeyValue { key: text(key), value: text(value) };
    assert_eq!(load_global(&vec![row("relay_rate_limit_pps", "12.5")], global()).relay_rate_limit_pps, "12.5");
    assert_eq!(load_global(&vec![row("relay_rate_limit_pps", "fast")], global()).relay_rate_limit_pps, "100");
    assert_eq!(load_global(&vec![], global()).relay_rate_limit_pps, "5.0");
    assert_eq!(load_ha(&vec![row("scope_split", "0.5")], ha()).scope_split.as_deref(), Some("0.5"));
    assert_eq!(load_ha(&vec![row("scope_split", "half")], ha()).scope_split, None);
    assert_eq!(load_ha(&vec![row("scope_split", "")], ha()).scope_split, None);
}
