use aifw_api::dns_resolver::config::{load_config, save_config, ResolverConfig};
use aifw_api::dns_resolver::dns64::validate_dns64_prefix;
use aifw_api::dns_resolver::edit::{
    check_config_update, create_acl, create_domain, create_host, delete_acl, delete_domain, delete_host,
    heal_forwarding, set_forwarders, update_domain, update_host,
};
use aifw_api::dns_resolver::files::{rdns_files, unbound_files, FileOp};
use aifw_api::dns_resolver::names::{
    sanitize_zone_filename, validate_acl_action, validate_cidr_network, validate_dns_value, validate_domain,
};
use aifw_api::dns_resolver::probe::{
    build_soa_root_query, keep_polling, response_matches, soa_root_query, tcp_frame, tcp_reply_len, PollStep, Polling,
};
use aifw_api::dns_resolver::rdns::{
    address_of_server, blocklist_downloads, generate_rdns_conf, generate_rdns_hosts_rpz, generate_rdns_rpz, generate_rdns_zones,
};
use aifw_api::dns_resolver::records::{
    AccessListEntry, CreateAccessListEntry, CreateDomainOverride, CreateHostOverride, DomainOverride, HostOverride, Lease,
};
use aifw_api::dns_resolver::status::{rdns_stats, resolver_status, unbound_stats, version_text, StatusReadings};
use aifw_api::dns_resolver::switch::{
    backend_service, resolver_logs, Backend, Switch, SwitchAction, SwitchEvent, SwitchOutcome,
};
use aifw_api::dns_resolver::unbound::{forward_addresses, generate_unbound_conf};
use aifw_api::status::Status;

fn text(s: &str) -> String {
    s.to_string()
}

fn config() -> ResolverConfig {
    ResolverConfig {
        backend: text("unbound"),
        enabled: true,
        dhcp_domain: text("lan"),
        listen_interfaces: vec![text("0.0.0.0")],
        port: 53,
        dnssec: true,
        dns64: false,
        dns64_prefix: text("64:ff9b::/96"),
        register_dhcp: true,
        local_zone_type: text("transparent"),
        outgoing_interface: None,
        num_threads: 2,
        msg_cache_size: text("8m"),
        rrset_cache_size: text("16m"),
        cache_max_ttl: 86400,
        cache_min_ttl: 0,
        prefetch: true,
        prefetch_key: true,
        infra_host_ttl: 900,
        unwanted_reply_threshold: 0,
        log_queries: false,
        log_replies: false,
        log_verbosity: 1,
        query_timeout_ms: 0,
        hide_identity: true,
        hide_version: true,
        rebind_protection: true,
        private_addresses: vec![text("10.0.0.0/8"), text("192.168.0.0/16")],
        forwarding_enabled: true,
        forwarding_servers: vec![text("1.1.1.1"), text("9.9.9.9")],
        use_system_nameservers: false,
        dot_enabled: false,
        dot_upstream: Vec::new(),
        blocklists_enabled: true,
        blocklist_urls: vec![text("https://lists/a"), text("https://lists/b")],
        whitelist: vec![text("good.example")],
        blocklist_action: text("nxdomain"),
        blocklist_redirect_ip: None,
        custom_options: String::new(),
        probe_enabled: true,
    }
}

fn host(name: &str, domain: &str, value: &str) -> HostOverride {
    HostOverride {
        id: text("h1"),
        hostname: text(name),
        domain: text(domain),
        record_type: text("A"),
        value: text(value),
        mx_priority: None,
        description: None,
        enabled: true,
        created_at: text("now"),
    }
}

// Probing

#[test]
fn query_is_17_bytes_soa_root() {
    let q = build_soa_root_query();
    assert_eq!(q.len(), 17);
    // Flags byte 2: RD=1 (bit 0)
    assert_eq!(q[2] & 0x01, 0x01);
    // QDCOUNT = 1
    assert_eq!(&q[4..6], &[0, 1]);
    // QNAME is the root label (single 0 byte) at offset 12
    assert_eq!(q[12], 0);
    // QTYPE = 6 (SOA), QCLASS = 1 (IN)
    assert_eq!(&q[13..15], &[0, 6]);
    assert_eq!(&q[15..17], &[0, 1]);
}

#[test]
fn response_matches_checks_id_and_qr_bit() {
    let q = build_soa_root_query();
    // Minimal valid response: copy id, set QR bit, keep rest.
    let mut resp = vec![0u8; 12];
    resp[0] = q[0];
    resp[1] = q[1];
    resp[2] = 0x80; // QR=1
    assert!(response_matches(&q, &resp));

    // Wrong ID: reject.
    resp[0] = q[0].wrapping_add(1);
    assert!(!response_matches(&q, &resp));

    // Correct ID, QR bit cleared: reject.
    resp[0] = q[0];
    resp[2] = 0x00;
    assert!(!response_matches(&q, &resp));

    // Too short: reject.
    assert!(!response_matches(&q, &resp[..8]));
}

#[test]
fn query_has_its_identifier() {
    assert_eq!(&soa_root_query(0xBEEF)[0..2], &[0xBE, 0xEF]);
}

#[test]
fn tcp_messages_have_a_length() {
    let f = tcp_frame(&vec![7u8; 300]);
    assert_eq!(&f[0..2], &[1, 44]);
    assert_eq!(f.len(), 302);
    assert_eq!(tcp_reply_len(0, 12), Some(12));
    assert_eq!(tcp_reply_len(0, 0), None);
    assert_eq!(tcp_reply_len(16, 0), Some(4096));
    assert_eq!(tcp_reply_len(16, 1), None);
}

#[test]
fn polling_ends_at_an_answer_or_in_time() {
    assert!(keep_polling(false, false, 100, 8000));
    assert!(!keep_polling(true, true, 100, 8000));
    assert!(keep_polling(true, false, 7000, 8000));
    assert!(!keep_polling(true, false, 7300, 8000));
}

// Settings

#[test]
fn settings_are_stored_and_read_back() {
    let mut other = config();
    other.backend = text("rdns");
    other.forwarding_servers = Vec::new();
    let rows = save_config(&config());
    let c = load_config(&rows, other);
    assert_eq!(c.backend, "unbound");
    assert_eq!(c.forwarding_servers, vec!["1.1.1.1", "9.9.9.9"]);
    assert_eq!(c.blocklist_urls, vec!["https://lists/a", "https://lists/b"]);
    assert_eq!(c.private_addresses, vec!["10.0.0.0/8", "192.168.0.0/16"]);
    assert_eq!(c.outgoing_interface, None);
    assert!(c.dnssec && c.probe_enabled && !c.dns64);
    assert_eq!((c.port, c.num_threads, c.cache_max_ttl), (53, 2, 86400));
}

#[test]
fn absent_settings_keep_their_defaults() {
    let c = load_config(&Vec::new(), config());
    assert_eq!(c.dhcp_domain, "lan");
    assert_eq!(c.whitelist, vec!["good.example"]);
    assert!(c.enabled);
}

#[test]
fn dns64_prefix_is_checked() {
    assert!(validate_dns64_prefix("64:ff9b::/96").is_ok());
    assert!(validate_dns64_prefix("64:ff9b::").is_ok());
    assert_eq!(
        validate_dns64_prefix("64:ff9b::/64"),
        Err(text("dns64_prefix must be an IPv6 /96 prefix (e.g. 64:ff9b::/96), got '64:ff9b::/64'"))
    );
    assert_eq!(
        validate_dns64_prefix("hello/96"),
        Err(text("dns64_prefix is not a valid IPv6 prefix: 'hello/96'"))
    );
    let mut c = config();
    assert!(check_config_update(&c).is_ok());
    c.dns64_prefix = text("x");
    assert_eq!(check_config_update(&c).err().unwrap().status, Status::BadRequest);
}

#[test]
fn forwarders_are_addresses() {
    let rows = set_forwarders(&vec![text("1.1.1.1"), text("2606:4700::1111")]).ok().unwrap();
    assert_eq!((rows[0].key.as_str(), rows[0].value.as_str()), ("forwarding_servers", "1.1.1.1,2606:4700::1111"));
    assert_eq!((rows[1].key.as_str(), rows[1].value.as_str()), ("forwarding_enabled", "true"));
    assert_eq!(set_forwarders(&Vec::new()).ok().unwrap()[1].value, "false");
    assert!(matches!(set_forwarders(&vec![text("dns.example")]), Err(Status::BadRequest)));
}

#[test]
fn forwarding_is_healed_where_servers_are_set() {
    assert!(heal_forwarding(Some("false"), Some("1.1.1.1")));
    assert!(!heal_forwarding(Some("false"), Some(" ")));
    assert!(!heal_forwarding(None, Some("1.1.1.1")));
    assert!(!heal_forwarding(Some("true"), Some("1.1.1.1")));
}

// Names and records

#[test]
fn names_are_checked() {
    assert!(validate_domain("host.example.com"));
    assert!(!validate_domain(""));
    assert!(!validate_domain("bad name"));
    assert!(!validate_domain("evil\ninclude"));
    assert_eq!(sanitize_zone_filename("../a b.zone"), "..ab.zone");
    assert!(validate_domain("ad-1.Example.org"));
    assert_eq!(sanitize_zone_filename("ad-1.Example.org"), "ad-1.Example.org");
    assert!(validate_acl_action("allow_snoop"));
    assert!(!validate_acl_action("Allow"));
    assert!(validate_cidr_network("10.0.0.0/8"));
    assert!(!validate_cidr_network("10.0.0.0/256"));
    assert!(!validate_cidr_network("lan/8"));
    assert!(validate_dns_value("A", "10.0.0.1").is_ok());
    assert!(validate_dns_value("A", "::1").is_err());
    assert!(validate_dns_value("AAAA", "::1").is_ok());
}

fn host_request(value: &str) -> CreateHostOverride {
    CreateHostOverride {
        hostname: text("web"),
        domain: text("lan"),
        record_type: None,
        value: text(value),
        mx_priority: None,
        description: None,
        enabled: None,
    }
}

#[test]
fn hosts_are_made_and_changed() {
    let h = create_host(host_request("10.0.0.5"), text("id"), text("now")).ok().unwrap();
    assert_eq!((h.record_type.as_str(), h.enabled), ("A", true));
    assert!(matches!(create_host(host_request("nope"), text("id"), text("now")), Err(Status::BadRequest)));
    let h = update_host(text("id"), host_request("10.0.0.6"), text("now")).ok().unwrap();
    assert_eq!(h.value, "10.0.0.6");
}

#[test]
fn domains_and_access_are_made() {
    let q = |d: &str| CreateDomainOverride {
        domain: text(d),
        server: text("10.0.0.2"),
        description: None,
        enabled: Some(false),
    };
    assert!(!create_domain(q("corp.example"), text("id"), text("now")).ok().unwrap().enabled);
    assert!(matches!(create_domain(q("a b"), text("id"), text("now")), Err(Status::BadRequest)));
    assert_eq!(update_domain(text("id"), q("x"), text("now")).domain, "x");
    let a = |n: &str, action: &str| CreateAccessListEntry { network: text(n), action: text(action), description: None };
    assert!(create_acl(a("10.0.0.0/8", "allow"), text("id"), text("now")).is_ok());
    assert!(matches!(create_acl(a("10.0.0.0/8", "permit"), text("id"), text("now")), Err(Status::BadRequest)));
    assert!(matches!(create_acl(a("lan", "allow"), text("id"), text("now")), Err(Status::BadRequest)));
}

// Configuration files

#[test]
fn unbound_file_has_what_was_set() {
    let acl = AccessListEntry {
        id: text("a"),
        network: text("10.0.0.0/8"),
        action: text("allow"),
        description: None,
        created_at: text("now"),
    };
    let domain = DomainOverride {
        id: text("d"),
        domain: text("corp.example"),
        server: text("10.0.0.2"),
        description: None,
        enabled: true,
        created_at: text("now"),
    };
    let lease = Lease { ip: text("10.0.0.50"), hostname: text("laptop") };
    let conf = generate_unbound_conf(&config(), &vec![acl], &vec![host("web", "lan", "10.0.0.5")], &vec![lease], &vec![domain], None);
    for wanted in ["server:", "port: 53", "access-control: 10.0.0.0/8 allow", "web.lan", "10.0.0.5", "laptop", "corp.example", "1.1.1.1"] {
        assert!(conf.contains(wanted), "{wanted}\n{conf}");
    }
}

#[test]
fn unbound_forwards_to_what_is_set() {
    assert_eq!(forward_addresses(&config(), None), vec!["1.1.1.1", "9.9.9.9"]);
    let mut c = config();
    c.use_system_nameservers = true;
    let all = forward_addresses(&c, Some("nameserver 8.8.8.8\n# x\n"));
    assert!(all.contains(&text("8.8.8.8")), "{all:?}");
}

#[test]
fn rdns_file_has_what_was_set() {
    let mut c = config();
    c.backend = text("rdns");
    let conf = generate_rdns_conf(&c, &vec![host("web", "lan", "10.0.0.5")], &Vec::new());
    for wanted in ["1.1.1.1", "9.9.9.9", "query_log = false", "[security]"] {
        assert!(conf.contains(wanted), "{wanted}\n{conf}");
    }
}

#[test]
fn reverse_records_end_in_one_dot() {
    let lease = Lease { ip: text("10.0.0.50"), hostname: text("laptop") };
    let zones = generate_rdns_zones(&config(), &vec![host("web", "lan", "10.0.0.5")], Some(&vec![lease]), 2026);
    let all: String = zones.iter().map(|z| z.content.clone()).collect();
    assert!(all.contains("5.0.0.10.in-addr.arpa. IN PTR web.lan.\n"), "{all}");
    assert!(all.contains("50.0.0.10.in-addr.arpa. IN PTR laptop.lan.\n"), "{all}");
    assert!(!all.contains(".."), "{all}");
}

#[test]
fn host_rewrites_are_written() {
    assert!(generate_rdns_hosts_rpz(&Vec::new(), 1).is_none());
    let rpz = generate_rdns_hosts_rpz(&vec![host("web", "lan", "10.0.0.5")], 1).unwrap();
    assert!(rpz.contains("web.lan") && rpz.contains("10.0.0.5"), "{rpz}");
}

#[test]
fn blocklists_are_merged() {
    assert_eq!(blocklist_downloads(&config()), vec!["https://lists/a", "https://lists/b"]);
    let bodies = vec![text("# comment\n0.0.0.0 ads.example\ntracker.example\n"), text("127.0.0.1 localhost\n")];
    let rpz = generate_rdns_rpz(&config(), &bodies, 1).unwrap();
    assert!(rpz.contains("ads.example"), "{rpz}");
    assert!(rpz.contains("tracker.example"), "{rpz}");
    assert!(rpz.contains("good.example"), "{rpz}");
    assert!(!rpz.contains("comment"), "{rpz}");
    let mut off = config();
    off.blocklists_enabled = false;
    assert!(blocklist_downloads(&off).is_empty());
}

#[test]
fn files_go_where_they_belong() {
    let ops = unbound_files(text("conf"));
    assert!(ops.iter().any(|o| matches!(o, FileOp::Install { content, .. } if content == "conf")));
    let zones = generate_rdns_zones(&config(), &vec![host("web", "lan", "10.0.0.5")], None, 1);
    let ops = rdns_files(text("conf"), &zones, Some(text("rpz")), None);
    assert!(matches!(&ops[0], FileOp::Install { dest, .. } if dest == "/usr/local/etc/rdns/rdns.toml"));
    assert!(matches!(ops[1], FileOp::DeleteZones));
    assert!(matches!(&ops[ops.len() - 1], FileOp::Install { content, .. } if content == "rpz"));
    let ops = rdns_files(text("conf"), &zones, None, None);
    assert!(matches!(&ops[ops.len() - 1], FileOp::Remove { dest } if dest == "/usr/local/etc/rdns/rpz/hosts.rpz"));
}

// Status

#[test]
fn versions_are_shown() {
    assert_eq!(version_text(true, Some(text(" rdns 1.2 \n"))), "rdns 1.2");
    assert_eq!(version_text(false, Some(text("Version 1.19\nConfigure line"))), "Version 1.19");
    assert_eq!(version_text(false, None), "Unbound");
    assert_eq!(version_text(true, Some(text(" "))), "rDNS");
}

#[test]
fn counters_are_read() {
    assert_eq!(unbound_stats("total.num.queries=10\ntotal.num.cachehits=7\ntotal.num.cachemiss=3\n"), (7, 3, 10));
    assert_eq!(rdns_stats("cache.hits = 5\ncache.misses=2\nother=1\n"), (5, 2, Some(7)));
    assert_eq!(rdns_stats("cache.hits=18446744073709551615\ncache.misses=1\n"), (u64::MAX, 1, None));
}

#[test]
fn status_names_what_runs() {
    let s = resolver_status(StatusReadings {
        configured: text("rdns"),
        running: true,
        version: Some(text("rdns 1.2")),
        hosts: 3,
        domains: 2,
        acls: 1,
        hits: 5,
        misses: 2,
        queries: 7,
        probed_udp: true,
        probed_tcp: false,
        probe_enabled: true,
        last_applied: Some(text("unbound")),
        last_switch_at: None,
        last_switch_result: Some(text("ok")),
    });
    assert_eq!((s.total_hosts, s.total_domains, s.total_acls), (3, 2, 1));
    assert!(s.listening_udp && !s.listening_tcp);
    assert_eq!(s.cache_hits, 5);
}

// Switching

#[test]
fn backends_have_services() {
    assert_eq!(backend_service("rdns"), Some(("rdns", "rdns_enable")));
    assert_eq!(backend_service("unbound"), Some(("local_unbound", "local_unbound_enable")));
    assert_eq!(backend_service("bind"), None);
    assert_eq!(resolver_logs("rdns").primary, "/var/log/rdns/rdns.log");
    assert_eq!(resolver_logs("unbound").term, "unbound");
}

fn row<'a>(o: &'a SwitchOutcome, key: &str) -> Option<&'a str> {
    o.saves.iter().find(|r| r.key == key).map(|r| r.value.as_str())
}

fn run(s: &mut Switch, target_answers: bool, written: bool) -> Vec<SwitchAction> {
    let mut seen = Vec::new();
    let mut restoring = false;
    loop {
        let a = s.action();
        seen.push(a);
        match a {
            SwitchAction::Report => {
                return seen;
            },
            SwitchAction::ReadFlag(_) => s.observe(SwitchEvent::Flag(true)),
            SwitchAction::Stop(_) => s.observe(SwitchEvent::Stopped),
            SwitchAction::WriteConfig(b) => {
                restoring = restoring || b == Backend::Unbound;
                if written {
                    s.observe(SwitchEvent::Written);
                } else {
                    s.observe(SwitchEvent::WriteFailed(Status::Internal));
                }
            },
            SwitchAction::Start(_) => s.observe(SwitchEvent::Started(String::new())),
            SwitchAction::Probe => {
                let up = target_answers || restoring;
                s.observe(SwitchEvent::Probed { udp: up, tcp: up });
            },
        }
    }
}

#[test]
fn target_that_answers_is_kept() {
    let mut s = Switch::begin(text("rdns"), Some(Backend::Unbound), true, true);
    run(&mut s, true, true);
    let o = s.finish("now");
    assert_eq!(o.report.backend, "rdns");
    assert!(o.report.probe_udp && !o.report.rolled_back && o.clears_pending);
    assert_eq!(o.report.message, "rdns applied and healthy");
    assert_eq!(o.saves[0].value, "rdns");
}

#[test]
fn target_that_is_silent_is_rolled_back() {
    let mut s = Switch::begin(text("rdns"), Some(Backend::Unbound), true, true);
    let seen = run(&mut s, false, true);
    assert!(seen.contains(&SwitchAction::Stop(Backend::Rdns)));
    assert!(seen.contains(&SwitchAction::Start(Backend::Unbound)));
    let o = s.finish("now");
    assert!(o.report.rolled_back);
    assert_eq!(o.report.backend, "unbound");
    assert_eq!(o.report.message, "rdns failed probe (no response on :53 after 8s); rolled back to unbound");
    assert_eq!(row(&o, "last_switch_at"), Some("now"));
}

#[test]
fn silent_target_without_a_predecessor() {
    let mut s = Switch::begin(text("rdns"), None, true, true);
    run(&mut s, false, true);
    let o = s.finish("now");
    assert_eq!(o.report.backend, "none");
    assert_eq!(
        o.report.message,
        "rdns failed to start (no response on :53 after 8s); no previous backend to restore"
    );
    assert_eq!(row(&o, "last_switch_at"), None);
    assert_eq!(row(&o, "last_applied_backend"), Some("none"));
}

#[test]
fn nothing_is_torn_down_without_files() {
    let mut s = Switch::begin(text("rdns"), Some(Backend::Unbound), true, true);
    let seen = run(&mut s, true, false);
    assert!(!seen.iter().any(|a| matches!(a, SwitchAction::Stop(_) | SwitchAction::Start(_))));
    let o = s.finish("now");
    assert_eq!(o.report.message, "config generation failed (500 Internal Server Error)");
    assert!(!o.clears_pending);
    assert_eq!(o.report.backend, "unbound");
    assert_eq!(row(&o, "last_switch_at"), None);
    assert_eq!(row(&o, "last_switch_result"), Some("failed: config generation error"));
}

#[test]
fn resolver_that_is_off_is_stopped() {
    let mut s = Switch::begin(text("rdns"), Some(Backend::Rdns), false, true);
    let seen = run(&mut s, true, true);
    assert!(seen.contains(&SwitchAction::Stop(Backend::Rdns)));
    assert!(seen.contains(&SwitchAction::Stop(Backend::Unbound)));
    let o = s.finish("now");
    assert_eq!(o.report.message, "DNS resolver stopped");
    assert_eq!(o.report.backend, "none");
    assert!(!o.report.enabled && !o.report.probe_udp && !o.report.probe_tcp && !o.report.rolled_back);
    assert_eq!(row(&o, "last_applied_backend"), Some("none"));
    assert_eq!(row(&o, "last_switch_at"), Some("now"));
    assert_eq!(row(&o, "last_switch_result"), Some("ok_disabled"));
    assert!(o.clears_pending);
}

#[test]
fn unknown_target_touches_nothing() {
    let mut s = Switch::begin(text("bind"), Some(Backend::Rdns), true, true);
    assert_eq!(run(&mut s, true, true), vec![SwitchAction::Report]);
    let o = s.finish("now");
    assert_eq!(o.report.message, "unknown backend: bind");
    assert!(o.saves.is_empty());
}

#[test]
fn deleted_records_are_named() {
    assert_eq!(delete_host(1).unwrap().message, "Host override deleted");
    assert_eq!(delete_domain(1).unwrap().message, "Domain override deleted");
    assert_eq!(delete_acl(1).unwrap().message, "ACL entry deleted");
    assert_eq!(delete_host(0).err(), Some(Status::NotFound));
    assert_eq!(delete_domain(0).err(), Some(Status::NotFound));
    assert_eq!(delete_acl(0).err(), Some(Status::NotFound));
}

#[test]
fn upstream_addresses_come_without_their_port() {
    assert_eq!(address_of_server("192.0.2.1"), "192.0.2.1");
    assert_eq!(address_of_server("192.0.2.1:5353"), "192.0.2.1");
    assert_eq!(address_of_server("2001:db8::1"), "2001:db8::1");
    assert_eq!(address_of_server("[2001:db8::1]:53"), "2001:db8::1");
    assert_eq!(address_of_server("[2001:db8::1]"), "2001:db8::1");
    assert_eq!(address_of_server("dns.example:53"), "dns.example");
}

#[test]
fn poll_asks_udp_before_tcp() {
    let mut p = Polling::start();
    assert_eq!(p.step(0, 8000), PollStep::AskUdp);
    p.answered(PollStep::AskUdp, true);
    assert_eq!(p.step(100, 8000), PollStep::AskTcp);
    p.answered(PollStep::AskTcp, false);
    assert_eq!(p.step(800, 8000), PollStep::Wait);
    p.waited();
    assert_eq!(p.step(1050, 8000), PollStep::AskTcp);
    p.answered(PollStep::AskTcp, true);
    assert_eq!(p.step(1100, 8000), PollStep::Finish);
    assert!(p.udp && p.tcp);
}

#[test]
fn poll_gives_up_when_the_time_is_up() {
    let mut p = Polling::start();
    assert_eq!(p.step(8000, 8000), PollStep::Finish);
    p.answered(PollStep::AskUdp, false);
    p.answered(PollStep::AskTcp, false);
    assert_eq!(p.step(7900, 8000), PollStep::Wait);
    p.waited();
    assert_eq!(p.step(8150, 8000), PollStep::Finish);
    assert!(!p.udp && !p.tcp);
}

#[test]
fn poll_does_not_wait_for_tcp_alone() {
    let mut p = Polling::start();
    p.answered(PollStep::AskUdp, true);
    p.answered(PollStep::AskTcp, false);
    assert_eq!(p.step(7300, 8000), PollStep::Finish);
}
