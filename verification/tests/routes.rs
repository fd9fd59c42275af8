use aifw_api::auth::keys::key_name_allowed;
use aifw_api::auth::password::validate_password;
use aifw_api::auth::cookies::TokenPair;
use aifw_api::auth::limiter::LoginRateLimiter;
use aifw_api::backup::convert::{NatRule, QueueConfig};
use aifw_api::backup::model::{Address, ConfigAddress, IpsecAuthMethod, IpsecSaConfig, IpsecTunnel, PortRange};
use aifw_api::identifiers::{require_uuid, EntityId};
use aifw_api::routes::auth::{
    callback_complete, client_key, create_api_key, create_oauth_provider, delete_oauth_provider, expiry_text, extract_user_id, finish_login,
    finish_refresh, login, login_audit, login_status, logout, oauth_callback, oauth_redirect, recovery_tried, refresh_source,
    refresh_token, register, session_token, totp_login, totp_verify, update_auth_settings, CreateProviderRequest, LoginOutcome,
    LoginUser, ProviderPlan, SpentTokens, TotpStep, UpdateAuthSettingsRequest,
};
use aifw_api::routes::schedules::{
    create_schedule, delete_schedule, update_schedule, validate_days_of_week, validate_time_ranges, CreateScheduleRequest, StringOrVec,
};
use aifw_api::routes::shaper::{apply_shaper, delete_shaper_queue, queue_answer, shaper_status, update_shaper_queue};
use aifw_api::routes::static_routes::{
    create_static_route, route_add_args, route_add_result, route_calls, route_delete_args, route_deleted,
    update_static_route, validate_route_target, CreateRouteRequest, StaticRoute,
};
use aifw_api::routes::translations::{
    create_nat_rule, delete_nat_rule, get_nat_pf_output, reorder_nat_rules, update_nat_rule, CreateNatRuleRequest, NatReadings,
};
use aifw_api::routes::vpn::{
    apply_tunnel_request, assigns_address, create_ipsec_sa_gone, create_wg_peer, create_wg_tunnel, delete_ipsec_sa,
    delete_ipsec_tunnel, delete_wg_peer, delete_wg_tunnel, free_wg_index, get_wan_ip,
    list_ipsec_sas, parse_address6, server_endpoint, split_addresses, start_ipsec_tunnel, start_wg_tunnel, stop_ipsec_tunnel,
    stop_wg_tunnel, update_wg_peer, update_wg_tunnel, CreateWgPeerRequest, CreateWgTunnelRequest, IpsecReadings,
    IpsecTunnelRequest, UpdateWgPeerRequest, WgReadings,
};
use aifw_api::status::{engine_refusal, require_row, EngineFailure, FailureKind, MessageResponse, Status};

const ID: &str = "550e8400-e29b-41d4-a716-446655440000";
const SECOND: i64 = 1_000_000_000;

fn text(s: &str) -> String {
    s.to_string()
}

fn literal(s: &str) -> Address {
    Address::Literal(text(s))
}

// Answers

#[test]
fn identifiers_are_normalised() {
    assert_eq!(require_uuid("550E8400E29B41D4A716446655440000"), Ok(text(ID)));
    assert_eq!(require_uuid("{550e8400-e29b-41d4-a716-446655440000}"), Ok(text(ID)));
    assert_eq!(require_uuid("urn:uuid:550e8400-e29b-41d4-a716-446655440000"), Ok(text(ID)));
    assert_eq!(require_uuid("550e8400"), Err(Status::BadRequest));
    assert_eq!(require_uuid(""), Err(Status::BadRequest));
}

#[test]
fn engine_failures_reach_the_caller() {
    let f = |kind| EngineFailure { kind, text: text("why") };
    assert_eq!(engine_refusal(f(FailureKind::Validation)).status, Status::BadRequest);
    assert_eq!(engine_refusal(f(FailureKind::NotFound)).status, Status::NotFound);
    let r = engine_refusal(f(FailureKind::Other));
    assert_eq!((r.status, r.message.as_str()), (Status::Internal, "why"));
    assert_eq!(require_row(0), Err(Status::NotFound));
    assert_eq!(require_row(1), Ok(()));
    assert_eq!(Status::Gone.code(), 410);
}

// Translations

fn nat_request() -> CreateNatRuleRequest {
    CreateNatRuleRequest {
        nat_type: text("dnat"),
        interface: text("em0"),
        protocol: text("tcp"),
        src_addr: None,
        src_port_start: None,
        src_port_end: None,
        dst_addr: Some(text("203.0.113.1")),
        dst_port_start: Some(80),
        dst_port_end: None,
        redirect_addr: text("10.0.0.5"),
        redirect_port_start: Some(8080),
        redirect_port_end: Some(8090),
        label: Some(text("web")),
        status: None,
    }
}

fn nat_readings() -> NatReadings {
    NatReadings {
        nat_type_known: true,
        protocol_known: true,
        src_addr: None,
        dst_addr: Some(Ok(literal("203.0.113.1"))),
        redirect_addr: Ok(literal("10.0.0.5")),
        interface_error: None,
        label_error: None,
    }
}

fn blank_nat() -> NatRule {
    NatRule {
        id: EntityId::Kept(text(ID)),
        nat_type: text("snat"),
        interface: String::new(),
        protocol: text("any"),
        src_addr: Address::Any,
        src_port: None,
        dst_addr: Address::Any,
        dst_port: None,
        redirect_addr: Address::Any,
        redirect_port: None,
        label: None,
        status: text("active"),
    }
}

#[test]
fn translation_is_made() {
    let n = create_nat_rule(blank_nat(), nat_request(), nat_readings()).ok().unwrap();
    assert_eq!(n.nat_type, "dnat");
    assert!(matches!(&n.src_addr, Address::Any));
    assert!(matches!(&n.dst_addr, Address::Literal(t) if t == "203.0.113.1"));
    assert_eq!(n.dst_port, Some(PortRange { start: 80, end: 80 }));
    assert_eq!(n.redirect_port, Some(PortRange { start: 8080, end: 8090 }));
    assert_eq!(n.src_port, None);
    assert_eq!(n.status, "active");
    assert_eq!(n.label.as_deref(), Some("web"));
}

fn nat_message(change: fn(&mut NatReadings)) -> String {
    let mut v = nat_readings();
    change(&mut v);
    let e = create_nat_rule(blank_nat(), nat_request(), v).err().unwrap();
    assert_eq!(e.status, Status::BadRequest);
    e.message
}

#[test]
fn translation_is_refused_with_a_reason() {
    assert_eq!(nat_message(|v| v.nat_type_known = false), "unknown NAT type 'dnat'");
    assert_eq!(nat_message(|v| v.protocol_known = false), "unknown protocol 'tcp'");
    assert_eq!(nat_message(|v| v.src_addr = Some(Err("x".to_string()))), "invalid source address: x");
    assert_eq!(nat_message(|v| v.dst_addr = Some(Err("y".to_string()))), "invalid destination address: y");
    assert_eq!(nat_message(|v| v.redirect_addr = Err("z".to_string())), "invalid redirect address: z");
    assert_eq!(nat_message(|v| v.interface_error = Some("bad name".to_string())), "bad name");
    assert_eq!(nat_message(|v| v.label_error = Some("bad label".to_string())), "bad label");
}

#[test]
fn first_fault_of_a_translation_is_answered() {
    let two = |v: &mut NatReadings| {
        v.protocol_known = false;
        v.interface_error = Some("bad name".to_string());
    };
    let mut v = nat_readings();
    two(&mut v);
    assert_eq!(create_nat_rule(blank_nat(), nat_request(), v).err().unwrap().message, "unknown protocol 'tcp'");
    let mut v = nat_readings();
    two(&mut v);
    assert_eq!(update_nat_rule(ID, Ok(blank_nat()), nat_request(), v).err().unwrap().message, "bad name");
}

#[test]
fn translation_is_changed() {
    let mut q = nat_request();
    q.status = Some(text("disabled"));
    let n = update_nat_rule(ID, Ok(blank_nat()), q, nat_readings()).ok().unwrap();
    assert_eq!(n.status, "disabled");
    let mut q = nat_request();
    q.status = Some(text("odd"));
    let e = update_nat_rule(ID, Ok(blank_nat()), q, nat_readings()).err().unwrap();
    assert_eq!((e.status, e.message.as_str()), (Status::BadRequest, "unknown status 'odd'"));
    let e = update_nat_rule("x", Ok(blank_nat()), nat_request(), nat_readings()).err().unwrap();
    assert_eq!((e.status, e.message.as_str()), (Status::BadRequest, "invalid rule id"));
    let gone = EngineFailure { kind: FailureKind::NotFound, text: text("no such rule") };
    let e = update_nat_rule(ID, Err(gone), nat_request(), nat_readings()).err().unwrap();
    assert_eq!((e.status, e.message.as_str()), (Status::NotFound, "no such rule"));
}

#[test]
fn loaded_translations_are_shown() {
    assert!(get_nat_pf_output(Vec::new(), Vec::new()).is_empty());
    assert_eq!(
        get_nat_pf_output(vec![text("nat on em0")], vec![text("pass in")]),
        vec![
            "# NAT rules (anchor: aifw-nat)",
            "nat on em0",
            "",
            "# Translation pass rules — af-to (anchor: aifw-nat)",
            "pass in",
        ]
    );
    assert_eq!(
        get_nat_pf_output(Vec::new(), vec![text("pass in")]),
        vec!["# Translation pass rules — af-to (anchor: aifw-nat)", "pass in"]
    );
}

#[test]
fn rules_are_put_in_order() {
    let r = reorder_nat_rules(&vec![text(ID), ID.to_uppercase()]);
    assert_eq!(r.places, vec![text(ID), text(ID)]);
    assert_eq!(r.answer, Ok(text("2 NAT rules reordered")));
    let r = reorder_nat_rules(&vec![text(ID), text("x"), text(ID)]);
    assert_eq!(r.places.len(), 1);
    assert_eq!(r.answer, Err(Status::BadRequest));
}

// Schedules

#[test]
fn times_of_day_are_checked() {
    assert!(validate_time_ranges("08:00-17:00"));
    assert!(validate_time_ranges("08:00-12:00, 13:00-23:59"));
    assert!(!validate_time_ranges("not-a-time"));
    assert!(!validate_time_ranges("24:00-25:00"));
    assert!(!validate_time_ranges("08:60-09:00"));
    assert!(!validate_time_ranges("08:00"));
    assert!(!validate_time_ranges(""));
    assert!(!validate_time_ranges("08:00-09:00,"));
}

#[test]
fn days_are_checked() {
    assert!(validate_days_of_week("mon,tue, sun"));
    assert!(!validate_days_of_week("monday,notaday"));
    assert!(!validate_days_of_week(""));
}

fn schedule(times: &str, days: Option<StringOrVec>) -> CreateScheduleRequest {
    CreateScheduleRequest {
        name: text("work"),
        description: None,
        time_ranges: StringOrVec::Single(text(times)),
        days_of_week: days,
        enabled: None,
    }
}

#[test]
fn schedule_is_made() {
    let days = StringOrVec::Multiple(vec![text("mon"), text("fri")]);
    let s = create_schedule(text("id"), schedule("08:00-17:00", Some(days)), text("now")).ok().unwrap();
    assert_eq!(s.days_of_week, "mon,fri");
    assert!(s.enabled);
    let s = create_schedule(text("id"), schedule("08:00-17:00", None), text("now")).ok().unwrap();
    assert_eq!(s.days_of_week, "mon,tue,wed,thu,fri,sat,sun");
    assert!(matches!(create_schedule(text("id"), schedule("x", None), text("now")), Err(Status::BadRequest)));
    let bad = schedule("08:00-17:00", Some(StringOrVec::Single(text("monday"))));
    assert!(matches!(create_schedule(text("id"), bad, text("now")), Err(Status::BadRequest)));
}

#[test]
fn schedule_is_changed() {
    let s = || create_schedule(text("id"), schedule("08:00-17:00", None), text("now")).ok().unwrap();
    assert!(matches!(update_schedule(s(), 0, true), Err(Status::NotFound)));
    assert!(matches!(update_schedule(s(), 1, false), Err(Status::Internal)));
    assert_eq!(update_schedule(s(), 1, true).ok().unwrap().name, "work");
}

// Shaping

fn queue(status: &str) -> QueueConfig {
    QueueConfig {
        id: EntityId::Kept(text(ID)),
        interface: text("em0"),
        queue_type: text("codel"),
        bandwidth_value: 10,
        bandwidth_unit: text("mb"),
        name: text("q"),
        traffic_class: text("default"),
        bandwidth_pct: None,
        default: false,
        status: text(status),
    }
}

#[test]
fn shaping_is_verified_where_it_can_be() {
    let s = shaper_status(&vec![queue("active"), queue("disabled")], true, false);
    assert_eq!((s.configured, s.active, s.backend, s.verified), (2, 1, "dummynet", false));
    assert!(shaper_status(&vec![queue("active")], true, true).verified);
    let s = shaper_status(&vec![queue("disabled")], false, false);
    assert_eq!((s.backend, s.verified), ("mock", true));
    assert!(!shaper_status(&vec![queue("active")], false, true).verified);
}

// Static routes

#[test]
fn route_targets_are_checked() {
    assert_eq!(validate_route_target("default"), Ok(()));
    assert_eq!(validate_route_target("10.0.0.0/8"), Ok(()));
    assert_eq!(validate_route_target("2001:db8::/32"), Ok(()));
    assert_eq!(validate_route_target("10.0.0.0/129"), Err(Status::BadRequest));
    assert_eq!(validate_route_target("-net 10.0.0.0"), Err(Status::BadRequest));
    assert_eq!(validate_route_target("10.0.0"), Err(Status::BadRequest));
}

fn route_request() -> CreateRouteRequest {
    CreateRouteRequest {
        destination: text("10.1.0.0/16"),
        gateway: text("10.0.0.1"),
        interface: None,
        metric: None,
        enabled: None,
        description: None,
        fib: Some(2),
    }
}

#[test]
fn route_is_made() {
    let r = create_static_route(route_request(), false, text("id"), text("now")).ok().unwrap();
    assert_eq!((r.metric, r.enabled, r.fib), (0, true, 2));
    let mut q = route_request();
    q.gateway = text("nowhere");
    assert!(matches!(create_static_route(q, true, text("id"), text("now")), Err(Status::BadRequest)));
    let mut q = route_request();
    q.interface = Some(text("em0; rm"));
    assert!(matches!(create_static_route(q, false, text("id"), text("now")), Err(Status::BadRequest)));
}

#[test]
fn route_program_is_called() {
    let add = route_add_args("10.1.0.0/16", "10.0.0.1", None, 2).join(" ");
    assert!(add.contains("10.1.0.0/16") && add.contains("10.0.0.1"), "{add}");
    let delete = route_delete_args("10.1.0.0/16", "10.0.0.1", 0).join(" ");
    assert!(delete.contains("delete"), "{delete}");
    assert!(route_add_result(true, "").is_ok());
    assert!(route_add_result(false, "route: writing to routing socket: File exists").is_ok());
    assert!(route_add_result(false, "network is unreachable").is_err());
}

// WireGuard

fn tunnel_request() -> CreateWgTunnelRequest {
    CreateWgTunnelRequest {
        name: text("office"),
        listen_port: 51820,
        address: text("10.9.0.1/24"),
        address6: Some(text("  ")),
        private_key: None,
        dns: None,
        mtu: Some(1420),
        listen_interface: None,
        split_routes: Some(text(" 10.0.0.0/8 ")),
    }
}

fn readings() -> WgReadings {
    WgReadings {
        address: Some(literal("10.9.0.1/24")),
        address6: None,
        generated: Some((text("priv"), text("pub"))),
        derived: None,
    }
}

#[test]
fn blank_address_is_none() {
    assert!(matches!(parse_address6(None, None), Ok(None)));
    assert!(matches!(parse_address6(Some(" \t"), None), Ok(None)));
    assert!(matches!(parse_address6(Some("fd00::1/64"), Some(literal("fd00::1/64"))), Ok(Some(_))));
    assert!(matches!(parse_address6(Some("x"), None), Err(Status::BadRequest)));
}

#[test]
fn lowest_interface_is_taken() {
    assert_eq!(free_wg_index(&Vec::new()), 0);
    assert_eq!(free_wg_index(&vec![text("wg0"), text("wg2"), text("em0"), text("wgx")]), 1);
    assert_eq!(free_wg_index(&vec![text("wg1"), text("wg0"), text("wg+2")]), 3);
    assert_eq!(free_wg_index(&vec![text("wg51820")]), 0);
}

#[test]
fn tunnel_is_made() {
    let t = create_wg_tunnel(tunnel_request(), readings(), &vec![text("wg0")]).ok().unwrap();
    assert_eq!(t.interface, "wg1");
    assert_eq!((t.private_key.as_str(), t.public_key.as_str()), ("priv", "pub"));
    assert!(t.address6.is_none());
    assert_eq!(t.split_routes.as_deref(), Some("10.0.0.0/8"));
    let mut q = tunnel_request();
    q.private_key = Some(text("mine"));
    let mut v = readings();
    v.derived = Some(text("derived"));
    let t = create_wg_tunnel(q.clone(), v, &Vec::new()).ok().unwrap();
    assert_eq!((t.private_key.as_str(), t.public_key.as_str()), ("mine", "derived"));
    assert!(matches!(create_wg_tunnel(q, readings(), &Vec::new()), Err(Status::BadRequest)));
}

#[test]
fn tunnel_is_refused() {
    let mut v = readings();
    v.address = None;
    assert!(matches!(create_wg_tunnel(tunnel_request(), v, &Vec::new()), Err(Status::BadRequest)));
    let mut v = readings();
    v.generated = None;
    assert!(matches!(create_wg_tunnel(tunnel_request(), v, &Vec::new()), Err(Status::Internal)));
    let mut q = tunnel_request();
    q.address6 = Some(text("x"));
    assert!(matches!(create_wg_tunnel(q, readings(), &Vec::new()), Err(Status::BadRequest)));
}

#[test]
fn tunnel_keeps_its_keys() {
    let t = create_wg_tunnel(tunnel_request(), readings(), &Vec::new()).ok().unwrap();
    let mut q = tunnel_request();
    q.name = text("home");
    q.private_key = Some(text("other"));
    assert!(matches!(update_wg_tunnel("x", Some(t.clone()), q.clone(), readings()), Err(Status::BadRequest)));
    assert!(matches!(update_wg_tunnel(ID, None, q.clone(), readings()), Err(Status::NotFound)));
    let t = update_wg_tunnel(ID, Some(t), q, readings()).ok().unwrap();
    assert_eq!((t.name.as_str(), t.private_key.as_str(), t.interface.as_str()), ("home", "priv", "wg0"));
}

fn peer_request() -> CreateWgPeerRequest {
    CreateWgPeerRequest {
        name: None,
        public_key: Some(text("key")),
        preshared_key: None,
        auto_generate_key: None,
        endpoint: None,
        allowed_ips: text("10.9.0.2/32, 10.9.0.3/32"),
        keepalive: Some(25),
    }
}

#[test]
fn peer_addresses_are_split() {
    assert!(assigns_address(" auto "));
    assert!(assigns_address(""));
    assert!(!assigns_address("10.9.0.2/32"));
    assert_eq!(split_addresses("10.9.0.2/32, 10.9.0.3/32"), vec!["10.9.0.2/32", "10.9.0.3/32"]);
}

#[test]
fn peer_is_made() {
    let ips = || vec![Some(literal("10.9.0.2/32")), Some(literal("10.9.0.3/32"))];
    let p = create_wg_peer(ID, peer_request(), ips(), None).ok().unwrap();
    assert_eq!((p.name.as_str(), p.public_key.as_str(), p.allowed_ips.len()), ("", "key", 2));
    assert_eq!(p.private_key, None);
    let mut q = peer_request();
    q.auto_generate_key = Some(true);
    let p = create_wg_peer(ID, q.clone(), ips(), Some((text("sec"), text("gen")))).ok().unwrap();
    assert_eq!((p.public_key.as_str(), p.private_key.as_deref()), ("gen", Some("sec")));
    assert!(matches!(create_wg_peer(ID, q, ips(), None), Err(Status::Internal)));
    let mut q = peer_request();
    q.public_key = Some(String::new());
    assert!(matches!(create_wg_peer(ID, q, ips(), None), Err(Status::BadRequest)));
    assert!(matches!(create_wg_peer(ID, peer_request(), vec![None], None), Err(Status::BadRequest)));
}

#[test]
fn peer_is_changed() {
    let p = || create_wg_peer(ID, peer_request(), vec![Some(literal("10.9.0.2/32"))], None).ok().unwrap();
    let q = UpdateWgPeerRequest {
        name: Some(text("phone")),
        endpoint: Some(String::new()),
        allowed_ips: None,
        keepalive: Some(0),
        preshared_key: Some(text("psk")),
    };
    assert!(matches!(update_wg_peer("x", Some(p()), q.clone(), Vec::new()), Err(Status::BadRequest)));
    assert!(matches!(update_wg_peer(ID, None, q.clone(), Vec::new()), Err(Status::NotFound)));
    let n = update_wg_peer(ID, Some(p()), q.clone(), Vec::new()).ok().unwrap();
    assert_eq!(n.name, "phone");
    assert_eq!(n.endpoint, None);
    assert_eq!(n.persistent_keepalive, None);
    assert_eq!(n.preshared_key.as_deref(), Some("psk"));
    assert_eq!(n.allowed_ips.len(), 1);
    let mut bad = q;
    bad.allowed_ips = Some(text("x"));
    assert!(matches!(update_wg_peer(ID, Some(p()), bad, vec![None]), Err(Status::BadRequest)));
}

#[test]
fn outer_address_is_read() {
    let printed = "em0: flags=8843\n\tether 00:11\n\tinet 203.0.113.7 netmask 0xffffff00\n\tinet 203.0.113.8\n";
    assert_eq!(get_wan_ip(printed).as_deref(), Some("203.0.113.7"));
    assert_eq!(get_wan_ip("inet6 fe80::1\ninet "), None);
    assert_eq!(server_endpoint(get_wan_ip(printed), "10.9.0.1/24"), "203.0.113.7");
    assert_eq!(server_endpoint(None, "10.9.0.1/24"), "10.9.0.1");
}

// IPsec

fn ipsec_tunnel() -> IpsecTunnel {
    IpsecTunnel {
        id: text(ID),
        name: text("old"),
        enabled: true,
        local_addr: String::new(),
        remote_addr: text("203.0.113.1"),
        local_id: String::new(),
        remote_id: String::new(),
        local_ts: Vec::new(),
        remote_ts: Vec::new(),
        auth_method: IpsecAuthMethod::Psk,
        psk: text("stored-secret-value"),
        cert_source: None,
        acme_cert_id: None,
        local_cert_pem: String::new(),
        local_key_pem: text("stored-key"),
        ca_cert_pem: String::new(),
        ike_proposal: text("aes256gcm16-prfsha256-ecp256"),
        esp_proposal: text("aes256gcm16"),
        ike_lifetime_secs: 14400,
        esp_lifetime_secs: 3600,
        dpd_delay_secs: 30,
        start_action: text("start"),
    }
}

fn ipsec_request() -> IpsecTunnelRequest {
    IpsecTunnelRequest {
        name: text("site-a"),
        remote_addr: text("203.0.113.99"),
        local_ts: vec![text("10.0.0.0/24")],
        remote_ts: vec![text("10.1.0.0/24")],
        enabled: None,
        local_addr: None,
        local_id: None,
        remote_id: None,
        auth_method: None,
        psk: None,
        cert_source: None,
        acme_cert_id: None,
        local_cert_pem: None,
        local_key_pem: None,
        ca_cert_pem: None,
        ike_proposal: None,
        esp_proposal: None,
        ike_lifetime_secs: None,
        esp_lifetime_secs: None,
        dpd_delay_secs: None,
        start_action: None,
    }
}

fn ipsec_readings() -> IpsecReadings {
    IpsecReadings {
        auth_method: Ok(IpsecAuthMethod::Cert),
        cert_source: Ok(text("acme")),
        start_action: Ok(text("trap")),
    }
}

#[test]
fn shown_secret_keeps_the_stored_one() {
    let mut q = ipsec_request();
    q.psk = Some(text("REDACTED"));
    q.local_key_pem = Some(text("REDACTED"));
    let t = apply_tunnel_request(ipsec_tunnel(), q, ipsec_readings()).ok().unwrap();
    assert_eq!(t.psk, "stored-secret-value");
    assert_eq!(t.local_key_pem, "stored-key");
    assert_eq!(t.remote_addr, "203.0.113.99");
    assert_eq!(t.name, "site-a");
    assert_eq!(t.ike_proposal, "aes256gcm16-prfsha256-ecp256");
    let mut q = ipsec_request();
    q.psk = Some(text("a-new-secret-value"));
    let t = apply_tunnel_request(ipsec_tunnel(), q, ipsec_readings()).ok().unwrap();
    assert_eq!(t.psk, "a-new-secret-value");
}

#[test]
fn certificate_needs_a_source() {
    let mut q = ipsec_request();
    q.auth_method = Some(text("cert"));
    let e = apply_tunnel_request(ipsec_tunnel(), q.clone(), ipsec_readings()).err().unwrap();
    assert_eq!((e.status, e.message.as_str()), (Status::BadRequest, "cert auth requires cert_source"));
    q.cert_source = Some(text("acme"));
    q.start_action = Some(text("trap"));
    let t = apply_tunnel_request(ipsec_tunnel(), q.clone(), ipsec_readings()).ok().unwrap();
    assert_eq!(t.cert_source.as_deref(), Some("acme"));
    assert_eq!(t.start_action, "trap");
    assert_eq!(t.auth_method, IpsecAuthMethod::Cert);
    q.cert_source = Some(String::new());
    assert!(apply_tunnel_request(t, q, ipsec_readings()).is_err());
}

#[test]
fn wrong_words_are_answered() {
    let fail = || EngineFailure { kind: FailureKind::Validation, text: text("unknown word") };
    let mut q = ipsec_request();
    q.auth_method = Some(text("x"));
    let mut v = ipsec_readings();
    v.auth_method = Err(fail());
    let e = apply_tunnel_request(ipsec_tunnel(), q, v).err().unwrap();
    assert_eq!((e.status, e.message.as_str()), (Status::BadRequest, "unknown word"));
    let mut q = ipsec_request();
    q.cert_source = Some(text("x"));
    let mut v = ipsec_readings();
    v.cert_source = Err(fail());
    assert!(apply_tunnel_request(ipsec_tunnel(), q, v).is_err());
    let mut q = ipsec_request();
    q.start_action = Some(text("x"));
    let mut v = ipsec_readings();
    v.start_action = Err(fail());
    assert!(apply_tunnel_request(ipsec_tunnel(), q, v).is_err());
}

#[test]
fn old_records_are_marked() {
    let a = || ConfigAddress { text: text("1.2.3.4"), parsed: Some(literal("1.2.3.4")) };
    let sa = IpsecSaConfig {
        id: text(ID),
        name: text("legacy"),
        src_addr: a(),
        dst_addr: a(),
        protocol: text("esp"),
        mode: text("tunnel"),
        enc_algo: text("aes"),
        auth_algo: text("sha"),
    };
    let l = list_ipsec_sas(vec![sa]);
    assert!(l[0].legacy);
    assert_eq!(l[0].sa.name, "legacy");
    let r = create_ipsec_sa_gone();
    assert_eq!(r.status, Status::Gone);
    assert!(r.message.contains("tunnels"));
}

// Login

fn known(enabled: bool, totp: bool) -> Option<LoginUser> {
    Some(LoginUser { enabled, totp_enabled: totp })
}

#[test]
fn address_comes_from_the_proxy() {
    assert_eq!(client_key(&Some(b" 10.0.0.1 , 10.0.0.2".to_vec()), text("x")), "10.0.0.1");
    assert_eq!(client_key(&Some(vec![0xff]), text("x")), "x");
    assert_eq!(client_key(&None, text("x")), "x");
}

#[test]
fn sixth_login_is_too_many() {
    let mut limiter = LoginRateLimiter::default();
    for i in 0..5 {
        let keys = login(&limiter, &None, "Admin", i * SECOND).ok().unwrap();
        assert_eq!((keys.ip.as_str(), keys.user.as_str()), ("user:Admin", "admin"));
        let o = finish_login(&mut limiter, &keys, known(true, false), false, false, i * SECOND);
        assert_eq!(o, LoginOutcome::WrongPassword);
        assert_eq!(login_status(o), Some(Status::Unauthorized));
        assert_eq!(login_audit(o), Some("login_failed"));
    }
    // Not even the right password gets in now, from wherever it comes.
    assert!(matches!(login(&limiter, &None, "admin", 6 * SECOND), Err(Status::TooManyRequests)));
    assert!(matches!(
        login(&limiter, &Some(b"10.0.0.9".to_vec()), "ADMIN", 6 * SECOND),
        Err(Status::TooManyRequests)
    ));
}

#[test]
fn logins_end_differently() {
    let mut limiter = LoginRateLimiter::default();
    let keys = login(&limiter, &None, "a", 0).ok().unwrap();
    let mut end = |user, password, totp| finish_login(&mut limiter, &keys, user, password, totp, 0);
    assert_eq!(end(None, false, false), LoginOutcome::Unknown);
    assert_eq!(end(known(false, false), true, false), LoginOutcome::Disabled);
    assert_eq!(end(known(true, true), true, false), LoginOutcome::SecondFactor);
    assert_eq!(end(known(true, false), true, true), LoginOutcome::SecondFactor);
    assert_eq!(end(known(true, false), true, false), LoginOutcome::Tokens);
    assert_eq!(login_audit(LoginOutcome::Disabled), Some("login_denied_disabled"));
    assert_eq!(login_audit(LoginOutcome::Tokens), Some("login_success"));
    assert_eq!(login_audit(LoginOutcome::Unknown), None);
    assert_eq!(login_status(LoginOutcome::SecondFactor), None);
}

#[test]
fn right_password_takes_failures_back() {
    let mut limiter = LoginRateLimiter::with_limits(2, 300);
    let keys = login(&limiter, &None, "a", 0).ok().unwrap();
    finish_login(&mut limiter, &keys, known(true, false), false, false, 0);
    finish_login(&mut limiter, &keys, known(true, false), true, false, 0);
    finish_login(&mut limiter, &keys, known(true, false), false, false, 0);
    assert!(login(&limiter, &None, "a", 0).is_ok());
}

#[test]
fn second_factor_comes_behind_the_password() {
    assert_eq!(totp_login(None, true, Some(true)), TotpStep::Refuse);
    assert_eq!(totp_login(Some(false), true, Some(true)), TotpStep::Refuse);
    assert_eq!(totp_login(Some(true), false, Some(true)), TotpStep::Refuse);
    assert_eq!(totp_login(Some(true), true, Some(true)), TotpStep::Tokens);
    assert_eq!(totp_login(Some(true), true, Some(false)), TotpStep::TryRecovery);
    assert_eq!(totp_login(Some(true), true, None), TotpStep::TryRecovery);
    assert_eq!(recovery_tried(true), TotpStep::Tokens);
    assert_eq!(recovery_tried(false), TotpStep::Refuse);
    assert_eq!(totp_verify(None), Err(Status::BadRequest));
    assert_eq!(totp_verify(Some(false)), Err(Status::Unauthorized));
    assert_eq!(totp_verify(Some(true)), Ok(()));
}

fn pair(refresh: &str) -> TokenPair {
    TokenPair {
        access_token: text("at"),
        refresh_token: text(refresh),
        access_expires_at: text("soon"),
        refresh_expires_at: text("later"),
        token_type: text("Bearer"),
    }
}

#[test]
fn refresh_token_works_once() {
    let mut limiter = LoginRateLimiter::with_limits(5, 300);
    let mut spent = SpentTokens::new();
    let keys = refresh_token(&limiter, &None, "rfx_ab", 0).ok().unwrap();
    assert_eq!(finish_refresh(&mut limiter, &mut spent, &keys, "r1", Some(&pair("r2")), 0), Ok(()));
    assert_eq!(finish_refresh(&mut limiter, &mut spent, &keys, "r1", Some(&pair("r3")), 0), Err(Status::Unauthorized));
    assert_eq!(finish_refresh(&mut limiter, &mut spent, &keys, "r2", Some(&pair("r2")), 0), Err(Status::Unauthorized));
    assert_eq!(finish_refresh(&mut limiter, &mut spent, &keys, "r2", Some(&pair("r4")), 0), Ok(()));
    spent.spend("r4");
    assert!(spent.holds("r1") && spent.holds("r2") && spent.holds("r4") && !spent.holds("r3"));
}

#[test]
fn renewals_are_limited() {
    let mut limiter = LoginRateLimiter::with_limits(2, 300);
    let mut spent = SpentTokens::new();
    for _ in 0..2 {
        let keys = refresh_token(&limiter, &None, "rfx_ab", 0).ok().unwrap();
        assert_eq!((keys.ip.as_str(), keys.user.as_str()), ("rfx:rfx_ab", "rfx_ab"));
        assert_eq!(finish_refresh(&mut limiter, &mut spent, &keys, "rfx_ab1", None, 0), Err(Status::Unauthorized));
    }
    assert!(matches!(refresh_token(&limiter, &None, "rfx_ab", 0), Err(Status::TooManyRequests)));
    let keys = refresh_token(&limiter, &None, "rfx_cd", 0).ok().unwrap();
    assert_eq!(finish_refresh(&mut limiter, &mut spent, &keys, "rfx_cd1", Some(&pair("rfx_cd2")), 0), Ok(()));
}

#[test]
fn tokens_are_found() {
    let cookies = vec![b"aifw_rt=rt; aifw_at=at".to_vec()];
    assert_eq!(refresh_source(Some(text("body")), &cookies), Ok(text("body")));
    assert_eq!(refresh_source(None, &cookies), Ok(text("rt")));
    assert_eq!(refresh_source(None, &Vec::new()), Err(Status::BadRequest));
    assert_eq!(session_token(&Some(b"Bearer tok".to_vec()), &cookies).as_deref(), Some("tok"));
    assert_eq!(session_token(&Some(b"ApiKey k".to_vec()), &cookies).as_deref(), Some("at"));
    assert_eq!(session_token(&None, &Vec::new()), None);
    assert_eq!(extract_user_id(Some(text("u"))), Ok(text("u")));
    assert_eq!(extract_user_id(None), Err(Status::Unauthorized));
    let p = logout(None, &None, &cookies);
    assert_eq!((p.refresh.as_deref(), p.strict, p.access.as_deref()), (Some("rt"), false, Some("at")));
    let p = logout(Some(text("b")), &None, &Vec::new());
    assert_eq!((p.refresh.as_deref(), p.strict, p.access), (Some("b"), true, None));
}

#[test]
fn expiry_is_written() {
    assert_eq!(expiry_text(1_000_000_000), "2001-09-09T01:46:40+00:00");
    assert_eq!(expiry_text(i64::MAX), "");
}

#[test]
fn settings_become_rows() {
    let q = UpdateAuthSettingsRequest {
        access_token_expiry_mins: Some(-5),
        refresh_token_expiry_days: None,
        require_totp: Some(true),
        require_totp_for_oauth: None,
        auto_create_oauth_users: Some(false),
        max_login_attempts: Some(3),
        lockout_duration_secs: None,
        allow_registration: None,
        password_min_length: Some(12),
    };
    let rows: Vec<(String, String)> = update_auth_settings(&q).into_iter().map(|r| (r.key, r.value)).collect();
    let wanted = vec![
        (text("access_token_expiry_mins"), text("-5")),
        (text("require_totp"), text("true")),
        (text("auto_create_oauth_users"), text("false")),
        (text("max_login_attempts"), text("3")),
        (text("password_min_length"), text("12")),
    ];
    assert_eq!(rows, wanted);
}

fn provider(kind: &str) -> CreateProviderRequest {
    CreateProviderRequest {
        name: text("corp"),
        provider_type: text(kind),
        client_id: text("cid"),
        client_secret: text("sec"),
        auth_url: Some(text("https://a")),
        token_url: None,
        userinfo_url: None,
        scopes: None,
    }
}

#[test]
fn providers_are_told_apart() {
    assert!(matches!(create_oauth_provider(provider("google")), ProviderPlan::Google { client_id, .. } if client_id == "cid"));
    assert!(matches!(create_oauth_provider(provider("github")), ProviderPlan::Github { .. }));
    match create_oauth_provider(provider("okta")) {
        ProviderPlan::Oidc { name, auth_url, token_url, scopes, .. } => {
            assert_eq!((name.as_str(), auth_url.as_str(), token_url.as_str()), ("corp", "https://a", ""));
            assert_eq!(scopes, "openid email profile");
        },
        _ => panic!("any other provider says itself where things are"),
    }
    assert_eq!(oauth_redirect("okta"), "/api/v1/auth/oauth/okta/callback");
}

#[test]
fn callbacks_are_checked() {
    assert_eq!(callback_complete("", "s"), Err(Status::BadRequest));
    assert_eq!(callback_complete("c", ""), Err(Status::BadRequest));
    assert_eq!(callback_complete("c", "s"), Ok(()));
    let mut spent = SpentTokens::new();
    assert_eq!(oauth_callback(&mut spent, "forged-nonce", false), Status::Unauthorized);
    assert_eq!(oauth_callback(&mut spent, "s", true), Status::NotImplemented);
    assert_eq!(oauth_callback(&mut spent, "s", true), Status::Unauthorized);
    assert_eq!(oauth_callback(&mut spent, "t", true), Status::NotImplemented);
}

#[test]
fn first_user_is_an_administrator() {
    let u = register(text("eve"), "GoodPass1", 8, Some(1)).ok().unwrap();
    assert_eq!((u.role.as_str(), u.role_id.as_str(), u.enabled), ("admin", "builtin-admin", true));
    assert!(matches!(register(text("eve"), "GoodPass1", 8, Some(0)), Err(Status::Forbidden)));
    assert!(matches!(register(text("eve"), "GoodPass1", 8, None), Err(Status::Conflict)));
    assert!(matches!(register(text("eve"), "Ab1", 8, Some(1)), Err(Status::BadRequest)));
}

#[test]
fn test_password_validation() {
    for bad in ["Ab1", "testpass123", "TESTPASS123", "TestPasswd"] {
        assert_eq!(validate_password(bad, 8), Err(Status::BadRequest), "{bad}");
    }
    assert_eq!(validate_password("GoodPass1", 8), Ok(()));
}

#[test]
fn test_password_min_length_enforced() {
    assert_eq!(validate_password("ShortPass123", 16), Err(Status::BadRequest));
    assert_eq!(validate_password("LongEnoughPass12", 16), Ok(()));
    assert_eq!(validate_password("LongEnoughPass12", 17), Err(Status::BadRequest));
}

#[test]
fn key_belongs_to_the_first_user() {
    assert_eq!(create_api_key(Some(ID), "my-key"), Ok(text(ID)));
    assert_eq!(create_api_key(None, "my-key"), Err(Status::BadRequest));
    assert_eq!(create_api_key(Some("x"), "my-key"), Err(Status::Internal));
}

#[test]
fn test_reserved_api_key_names_rejected() {
    for name in ["aifw-cluster-peer", "aifw-daemon-loopback"] {
        assert_eq!(key_name_allowed(name), Err(Status::BadRequest));
        assert_eq!(create_api_key(Some(ID), name), Err(Status::BadRequest));
    }
    assert_eq!(key_name_allowed("my-key"), Ok(()));
    assert_eq!(create_api_key(Some(ID), "my-key"), Ok(text(ID)));
}

fn stored_route(gateway: &str, interface: Option<&str>, enabled: bool, fib: u32) -> StaticRoute {
    StaticRoute {
        id: "r1".to_string(),
        destination: "10.9.0.0/16".to_string(),
        gateway: gateway.to_string(),
        interface: interface.map(String::from),
        metric: 0,
        enabled,
        description: None,
        created_at: "2026-01-01T00:00:00Z".to_string(),
        fib,
    }
}

#[test]
fn changed_route_is_removed_before_it_is_added() {
    let old = stored_route("192.0.2.1", None, true, 0);
    let new = stored_route("192.0.2.2", Some("em1"), true, 2);
    let calls = route_calls(Some(&old), Some(&new));
    assert_eq!(
        calls,
        vec![
            vec!["/sbin/route", "delete", "10.9.0.0/16", "192.0.2.1"],
            vec!["/sbin/route", "-fib", "2", "add", "10.9.0.0/16", "192.0.2.2", "-interface", "em1"],
        ]
    );
}

#[test]
fn disabled_routes_leave_the_system_alone() {
    let off = stored_route("192.0.2.1", None, false, 0);
    let on = stored_route("192.0.2.1", None, true, 0);
    assert!(route_calls(Some(&off), Some(&off)).is_empty());
    assert!(route_calls(None, Some(&off)).is_empty());
    assert_eq!(route_calls(Some(&on), Some(&off)), vec![vec!["/sbin/route", "delete", "10.9.0.0/16", "192.0.2.1"]]);
    assert_eq!(route_deleted("10.9.0.0/16"), "Route to 10.9.0.0/16 deleted");
}

#[test]
fn updated_route_keeps_its_id() {
    let req = CreateRouteRequest {
        destination: "10.9.0.0/16".to_string(),
        gateway: "192.0.2.1".to_string(),
        interface: None,
        metric: None,
        enabled: None,
        description: None,
        fib: None,
    };
    assert_eq!(update_static_route("r7".to_string(), req.clone(), true, false, text("now")).err(), Some(Status::NotFound));
    let mut bad = req.clone();
    bad.gateway = text("nowhere");
    assert_eq!(update_static_route("r7".to_string(), bad, true, false, text("now")).err(), Some(Status::BadRequest));
    let r = update_static_route("r7".to_string(), req, true, true, "now".to_string()).unwrap();
    assert_eq!(r.id, "r7");
    assert_eq!(r.metric, 0);
    assert!(r.enabled);
    assert_eq!(r.fib, 0);
}

// Changes by identifier

fn told(r: Result<MessageResponse, Status>) -> Result<String, Status> {
    r.map(|m| m.message)
}

#[test]
fn deletions_name_what_is_gone() {
    let gone = |what: &str| Ok(format!("{what} {ID} deleted"));
    assert_eq!(told(delete_wg_tunnel(ID, true)), gone("WG tunnel"));
    assert_eq!(told(delete_wg_peer(ID, true)), gone("WG peer"));
    assert_eq!(told(delete_ipsec_sa(ID, true)), gone("IPsec SA"));
    assert_eq!(told(delete_nat_rule(ID, true)), gone("NAT rule"));
    assert_eq!(told(delete_oauth_provider(ID, true)), gone("Provider"));
    assert_eq!(told(delete_schedule("s1", 1, true)), Ok(text("Schedule s1 deleted")));
}

#[test]
fn what_is_not_there_is_not_found() {
    assert_eq!(told(delete_wg_tunnel(ID, false)), Err(Status::NotFound));
    assert_eq!(told(delete_wg_peer(ID, false)), Err(Status::NotFound));
    assert_eq!(told(delete_ipsec_sa(ID, false)), Err(Status::NotFound));
    assert_eq!(told(delete_nat_rule(ID, false)), Err(Status::NotFound));
    assert_eq!(told(delete_oauth_provider(ID, false)), Err(Status::NotFound));
    assert_eq!(told(delete_schedule("s1", 0, true)), Err(Status::NotFound));
    assert_eq!(told(delete_schedule("s1", 1, false)), Err(Status::Internal));
}

#[test]
fn what_is_no_identifier_is_a_bad_request() {
    assert_eq!(told(delete_wg_tunnel("x", true)), Err(Status::BadRequest));
    assert_eq!(told(delete_wg_peer("", true)), Err(Status::BadRequest));
    assert_eq!(told(delete_nat_rule("1", false)), Err(Status::BadRequest));
    assert_eq!(told(start_wg_tunnel("x", true)), Err(Status::BadRequest));
    assert_eq!(told(delete_shaper_queue("x", true, true)), Err(Status::BadRequest));
}

#[test]
fn tunnels_start_and_stop() {
    assert_eq!(told(start_wg_tunnel(ID, true)), Ok(text("Tunnel started")));
    assert_eq!(told(start_wg_tunnel(ID, false)), Err(Status::Internal));
    assert_eq!(told(stop_wg_tunnel(ID, true)), Ok(text("Tunnel stopped")));
    assert_eq!(told(stop_wg_tunnel(ID, false)), Err(Status::Internal));
}

#[test]
fn ipsec_tunnels_answer_with_words() {
    assert_eq!(delete_ipsec_tunnel(ID, Ok(())).unwrap().message, format!("IPsec tunnel {ID} deleted"));
    assert_eq!(start_ipsec_tunnel(ID, Ok(())).unwrap().message, "Tunnel initiated");
    assert_eq!(stop_ipsec_tunnel(ID, Ok(())).unwrap().message, "Tunnel terminated");
    let e = start_ipsec_tunnel("x", Ok(())).unwrap_err();
    assert_eq!((e.status, e.message.as_str()), (Status::BadRequest, "invalid tunnel id"));
    let failure = EngineFailure { kind: FailureKind::NotFound, text: text("no such tunnel") };
    let e = stop_ipsec_tunnel(ID, Err(failure)).unwrap_err();
    assert_eq!((e.status, e.message.as_str()), (Status::NotFound, "no such tunnel"));
}

#[test]
fn queues_are_stored_and_loaded() {
    let q = update_shaper_queue("550E8400-E29B-41D4-A716-446655440000", queue("active")).unwrap();
    assert!(matches!(&q.id, EntityId::Kept(t) if t == ID));
    assert_eq!(update_shaper_queue("x", queue("active")).err(), Some(Status::BadRequest));
    assert_eq!(queue_answer(None, true).err(), Some(Status::BadRequest));
    assert_eq!(queue_answer(Some(queue("active")), false).err(), Some(Status::Internal));
    assert_eq!(queue_answer(Some(queue("active")), true).unwrap().status, "active");
    assert_eq!(told(delete_shaper_queue(ID, false, true)), Err(Status::NotFound));
    assert_eq!(told(delete_shaper_queue(ID, true, false)), Err(Status::Internal));
    assert_eq!(told(delete_shaper_queue(ID, true, true)), Ok(text("shaper queue deleted and live state reapplied")));
    assert_eq!(told(apply_shaper(true)), Ok(text("shaper configuration applied and verified")));
    assert_eq!(told(apply_shaper(false)), Err(Status::Internal));
}
