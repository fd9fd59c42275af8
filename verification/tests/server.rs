use aifw_api::auth::keys::replication_caller;
use aifw_api::pf_conf::{checked_file, ensure_rdr_anchor, patch_pf_conf, FileStep, FILTER_ANCHOR, ND_RULE};
use aifw_api::router::{
    body_limit, checks_origin, nodes_only, route_access, Access, Permission, ALIASES_READ, ALIASES_WRITE, BACKUP_READ,
    BACKUP_WRITE, CLUSTER, CONNECTIONS_VIEW, DASHBOARD_VIEW, DHCP_READ, DHCP_WRITE, DNS_READ, DNS_WRITE, GEOIP_READ,
    GEOIP_WRITE, IDS_READ, IDS_WRITE, IFACES_READ, IFACES_WRITE, LOGS_VIEW, MULTIWAN_READ, MULTIWAN_WRITE, NAT_READ,
    NAT_WRITE, PLUGINS_READ, PLUGINS_WRITE, PROXY_READ, PROXY_WRITE, PUBLIC_ROUTES, RULES_READ, RULES_WRITE,
    SELF_SERVICE, SETTINGS_READ, SETTINGS_WRITE, SHAPER_READ, SHAPER_WRITE, SYSTEM_READ, SYSTEM_REBOOT, SYSTEM_WRITE,
    UPDATES_INSTALL, UPDATES_INSTALL_LOCAL, UPDATES_READ, USERS_READ, USERS_WRITE, VPN_READ, VPN_WRITE,
};
use aifw_api::server::{
    cluster_enabled, cluster_snapshot_data, cors_origins, export_failed, guard_origin, history_max, keep_snapshot,
    migrate_forwarders, migrate_servers, origin_allowed, plaintext_check, sample_pfsync_metrics, stream_origins,
    transport_security, ui_cache_headers, Part, PendingChanges,
};
use aifw_api::status::Status;

// Origins

#[test]
fn test_origin_allowed_policy() {
    // No policy: any origin, and no origin, allowed.
    assert!(origin_allowed(Some("https://evil.test"), &None));
    assert!(origin_allowed(None, &None));

    // A list: only listed origins, in whatever case; a client without an
    // origin is still allowed.
    let allow = Some(vec!["https://ui.example".to_string()]);
    assert!(origin_allowed(Some("https://ui.example"), &allow));
    assert!(origin_allowed(Some("HTTPS://UI.EXAMPLE"), &allow));
    assert!(origin_allowed(None, &allow));
    assert!(!origin_allowed(Some("https://evil.example"), &allow));
}

#[test]
fn stream_from_a_foreign_origin_is_forbidden() {
    let allow = stream_origins("https://ui.example");
    assert_eq!(guard_origin(Some(b"https://evil.example"), &allow), Err(Status::Forbidden));
    assert_eq!(guard_origin(Some(b"https://ui.example"), &allow), Ok(()));
    assert_eq!(guard_origin(None, &allow), Ok(()));
    assert_eq!(guard_origin(Some(&[0xff, 0xfe]), &allow), Ok(()));
}

#[test]
fn origin_lists_are_read_from_the_setting() {
    assert_eq!(stream_origins("*"), None);
    assert_eq!(
        stream_origins(" https://a , ,https://b "),
        Some(vec!["https://a".to_string(), "https://b".to_string()])
    );
    assert_eq!(cors_origins("*"), None);
    assert_eq!(
        cors_origins("https://a, https://b\u{1},"),
        Some(vec!["https://a".to_string(), String::new()])
    );
}

// Routes

#[test]
fn routes_need_their_permissions() {
    assert_eq!(route_access("POST /api/v1/auth/login"), Some(Access::Public));
    assert_eq!(route_access("POST /api/v1/auth/logout"), Some(Access::SignedIn));
    assert_eq!(route_access("GET /api/v1/rules"), Some(Access::Needs(Permission::RulesRead)));
    assert_eq!(route_access("POST /api/v1/rules"), Some(Access::Needs(Permission::RulesWrite)));
    assert_eq!(route_access("GET /api/v1/ws"), Some(Access::Needs(Permission::DashboardView)));
    assert_eq!(route_access("GET /api/v1/nothing"), None);
}

#[test]
fn test_cluster_replication_endpoints_reject_non_peer() {
    for route in ["PUT /api/v1/cluster/snapshot", "POST /api/v1/cluster/cert-push"] {
        assert_eq!(route_access(route), Some(Access::Needs(Permission::HaManage)));
        assert!(nodes_only(route));
    }
    assert!(!nodes_only("GET /api/v1/rules"));
    // A token carries no key, whatever its user may do.
    assert_eq!(replication_caller(None), Err(Status::Forbidden));
    assert_eq!(replication_caller(Some("my-key")), Err(Status::Forbidden));
    assert_eq!(replication_caller(Some("aifw-cluster-peer ")), Err(Status::Forbidden));
    assert_eq!(replication_caller(Some("aifw-cluster-peer")), Ok(()));
    assert_eq!(replication_caller(Some("aifw-daemon-loopback")), Ok(()));
}

#[test]
fn no_route_is_in_two_tables() {
    let tables: Vec<&[&str]> = vec![
        &ALIASES_READ,
        &ALIASES_WRITE,
        &BACKUP_READ,
        &BACKUP_WRITE,
        &CLUSTER,
        &CONNECTIONS_VIEW,
        &DASHBOARD_VIEW,
        &DHCP_READ,
        &DHCP_WRITE,
        &DNS_READ,
        &DNS_WRITE,
        &GEOIP_READ,
        &GEOIP_WRITE,
        &IDS_READ,
        &IDS_WRITE,
        &IFACES_READ,
        &IFACES_WRITE,
        &LOGS_VIEW,
        &MULTIWAN_READ,
        &MULTIWAN_WRITE,
        &NAT_READ,
        &NAT_WRITE,
        &PLUGINS_READ,
        &PLUGINS_WRITE,
        &PROXY_READ,
        &PROXY_WRITE,
        &PUBLIC_ROUTES,
        &RULES_READ,
        &RULES_WRITE,
        &SELF_SERVICE,
        &SETTINGS_READ,
        &SETTINGS_WRITE,
        &SHAPER_READ,
        &SHAPER_WRITE,
        &SYSTEM_READ,
        &SYSTEM_REBOOT,
        &SYSTEM_WRITE,
        &UPDATES_INSTALL,
        &UPDATES_INSTALL_LOCAL,
        &UPDATES_READ,
        &USERS_READ,
        &USERS_WRITE,
        &VPN_READ,
        &VPN_WRITE,
    ];
    for (i, a) in tables.iter().enumerate() {
        for (j, b) in tables.iter().enumerate() {
            for (k, x) in a.iter().enumerate() {
                for (l, y) in b.iter().enumerate() {
                    assert!(x != y || (i == j && k == l), "{x}");
                }
            }
        }
    }
}

#[test]
fn uploads_may_be_large() {
    assert_eq!(body_limit("POST /api/v1/updates/aifw/install-local"), 500 * 1024 * 1024);
    assert_eq!(body_limit("POST /api/v1/config/preview-opnsense"), 15 * 1024 * 1024);
    assert_eq!(body_limit("POST /api/v1/config/import-opnsense"), 15 * 1024 * 1024);
    assert_eq!(body_limit("POST /api/v1/config/import"), 10 * 1024 * 1024);
    assert_eq!(body_limit("POST /api/v1/rules"), 10 * 1024 * 1024);
}

#[test]
fn streams_check_the_origin() {
    assert!(checks_origin("GET /api/v1/ws"));
    assert!(checks_origin("GET /api/v1/dns/stream"));
    assert!(!checks_origin("GET /api/v1/dns"));
}

// Headers

#[test]
fn cache_headers_follow_the_path() {
    assert_eq!(ui_cache_headers("/_next/static/a.js"), "public, max-age=31536000, immutable");
    assert_eq!(ui_cache_headers("/"), "no-cache, must-revalidate");
    assert_eq!(ui_cache_headers("/sub/index.html"), "no-cache, must-revalidate");
    assert_eq!(ui_cache_headers("/rules"), "no-cache, must-revalidate");
    assert_eq!(ui_cache_headers("/logo.png"), "public, max-age=3600");
    assert_eq!(ui_cache_headers("/api/v1/x"), "public, max-age=3600");
}

#[test]
fn transport_security_follows_tls() {
    assert_eq!(transport_security(true), Some("max-age=31536000; includeSubDomains"));
    assert_eq!(transport_security(false), None);
}

// Start

#[test]
fn history_is_capped_at_a_day() {
    assert_eq!(history_max(None), (1800, false));
    assert_eq!(history_max(Some("600")), (600, false));
    assert_eq!(history_max(Some("x")), (1800, false));
    assert_eq!(history_max(Some("86400")), (86_400, false));
    assert_eq!(history_max(Some("2592000")), (86_400, true));
}

#[test]
fn cluster_flag_is_yes_alone() {
    assert!(cluster_enabled(Some("YES\n")));
    assert!(!cluster_enabled(Some("yes")));
    assert!(!cluster_enabled(None));
}

#[test]
fn plaintext_stays_on_this_machine() {
    assert_eq!(plaintext_check(true, true, false, "127.0.0.1:8080"), Ok(false));
    assert_eq!(plaintext_check(true, false, true, "0.0.0.0:8080"), Ok(true));
    assert_eq!(plaintext_check(false, false, false, "0.0.0.0:8080"), Ok(false));
    assert_eq!(
        plaintext_check(true, false, false, "0.0.0.0:8080"),
        Err("refusing to bind 0.0.0.0:8080 without TLS; pass --allow-plaintext-external to override".to_string())
    );
}

#[test]
fn old_forwarders_are_moved_once() {
    let rows = migrate_forwarders(Some("[\"1.1.1.1\",\"9.9.9.9\"]"), Some("  ")).unwrap();
    assert_eq!(rows.len(), 2);
    assert_eq!((rows[0].key.as_str(), rows[0].value.as_str()), ("forwarding_servers", "1.1.1.1,9.9.9.9"));
    assert_eq!((rows[1].key.as_str(), rows[1].value.as_str()), ("forwarding_enabled", "true"));
    assert!(migrate_forwarders(Some("[\"1.1.1.1\"]"), Some("8.8.8.8")).is_none());
    assert!(migrate_forwarders(Some("not json"), None).is_none());
    assert!(migrate_forwarders(None, None).is_none());
    assert!(migrate_servers(&Vec::new(), None).is_none());
}

// Counters

#[test]
fn packet_counters_are_read() {
    let ifconfig = "pfsync0: flags=41\n\tinput:  12,345 packets, 67890 bytes\n\toutput: 23456 packets\n";
    let pfctl = "State Table    Total\n  current entries                    777\n";
    assert_eq!(sample_pfsync_metrics(ifconfig, Some(pfctl)), (12345, 23456, 777));
    assert_eq!(sample_pfsync_metrics("", None), (0, 0, 0));
    assert_eq!(sample_pfsync_metrics("input:\ninput: x", Some("current entries 1,000")), (0, 0, 0));
}

// Pending changes and snapshots

#[test]
fn pending_changes_are_told() {
    let mut p = PendingChanges::default();
    let told = p.set_pending(Part::Nat, true);
    assert!(told.nat && !told.firewall && !told.dns);
    assert_eq!(p.set_pending(Part::Nat, false), PendingChanges::default());
    assert!(p.set_pending(Part::Dns, true).dns);
    assert!(p.set_pending(Part::Firewall, true).firewall);
}

#[test]
fn snapshot_is_served_for_a_minute() {
    let mut cache = None;
    assert!(cluster_snapshot_data(&cache, 0, 0).is_none());
    keep_snapshot(&mut cache, 7, 100, "{}", "abc");
    assert_eq!(cluster_snapshot_data(&cache, 7, 200), Some(("{}".to_string(), "abc".to_string())));
    assert!(cluster_snapshot_data(&cache, 8, 200).is_none());
    assert!(cluster_snapshot_data(&cache, 7, 99 + 60_000_000_000).is_some());
    assert!(cluster_snapshot_data(&cache, 7, 100 + 60_000_000_000).is_none());
    assert_eq!(export_failed(Status::Internal), "export: 500");
}

// The packet filter's file

const OLD_FILE: &str = "set skip on lo\nnat-anchor \"aifw-nat\"\nnat-anchor \"aifw\"\n  anchor \"aifw\"\nblock all\n";

#[test]
fn missing_lines_are_added_in_place() {
    let patched = patch_pf_conf(OLD_FILE).unwrap();
    let wanted = format!(
        "set skip on lo\nnat-anchor \"aifw-nat\"\nrdr-anchor \"aifw-nat\"\nnat-anchor \"aifw\"\n{ND_RULE}\nanchor \"aifw-pbr\"\nanchor \"aifw-mwan-leak\"\nanchor \"aifw-mwan-reply\"\n  {FILTER_ANCHOR}\nanchor \"aifw-nat\"\nblock all\n"
    );
    assert_eq!(patched, wanted);
}

#[test]
fn patched_file_is_left_alone() {
    let patched = patch_pf_conf(OLD_FILE).unwrap();
    assert_eq!(patch_pf_conf(&patched), None);
    assert_eq!(patch_pf_conf(""), None);
    assert_eq!(patch_pf_conf("block all"), None);
}

#[test]
fn lines_of_the_file_are_not_added_again() {
    let patched = patch_pf_conf(OLD_FILE).unwrap();
    let times = |file: &str, line: &str| file.lines().filter(|l| l.trim() == line).count();
    for line in OLD_FILE.lines().map(str::trim) {
        assert_eq!(times(&patched, line), times(OLD_FILE, line), "{line}");
    }
    assert_eq!(times(&patched, ND_RULE), 1);
}

#[test]
fn neighbour_rule_goes_before_the_first_anchor() {
    let file = "anchor \"aifw-pbr\"\nanchor \"aifw-mwan-leak\"\nanchor \"aifw-mwan-reply\"\nanchor \"aifw\"\nanchor \"aifw-nat\"\n";
    assert_eq!(patch_pf_conf(file).unwrap(), format!("{ND_RULE}\n{file}"));
}

#[test]
fn file_is_replaced_only_where_the_check_accepts_it() {
    let patched = patch_pf_conf(OLD_FILE).unwrap();
    let copy = match ensure_rdr_anchor(OLD_FILE) {
        FileStep::Check(t) => t,
        other => panic!("{other:?}"),
    };
    assert_eq!(copy, patched);
    assert!(matches!(checked_file(copy.clone(), false), FileStep::Leave));
    assert!(matches!(checked_file(copy, true), FileStep::Install(t) if t == patched));
    assert!(matches!(ensure_rdr_anchor(&patched), FileStep::Leave));
}
