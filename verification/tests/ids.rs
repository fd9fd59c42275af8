use aifw_api::backup::model::Checked;
use aifw_api::ids::{
    acknowledge_alert, after_download, alerts_page, classified_message, classify_alert, create_ruleset, create_suppression,
    delete_ruleset, get_alert, get_rule, get_stats, ipc_to_response,
    list_suppressions, needs_download, purge_message, purge_note, rule_from_row, rules_page, severity_label,
    suppression_from_row, suppressions_page, update_config, update_rule, update_ruleset, AlertsQuery, CreateRulesetRequest,
    CreateSuppressionRequest, IdsConfig, IdsFailure, IdsMode, IdsRuleset, LiveStats, Moment, PageQuery, RuleRow, RulesQuery,
    SuppressionRow, UpdateConfigRequest, UpdateRuleRequest, UpdateRulesetRequest,
};
use aifw_api::status::Status;

const ID: &str = "550e8400-e29b-41d4-a716-446655440000";

fn checked(text: &str, valid: bool) -> Checked {
    Checked { text: text.to_string(), valid }
}

#[test]
fn failures_become_statuses() {
    assert_eq!(ipc_to_response::<u8>(Ok(3)).ok(), Some(3));
    let e = ipc_to_response::<u8>(Err(IdsFailure::Unavailable)).err().unwrap();
    assert_eq!((e.status, e.message.as_str()), (Status::Unavailable, "ids service unavailable"));
    let e = ipc_to_response::<u8>(Err(IdsFailure::Timeout)).err().unwrap();
    assert_eq!((e.status, e.message.as_str()), (Status::Unavailable, "ids service unavailable"));
    let e = ipc_to_response::<u8>(Err(IdsFailure::Server)).err().unwrap();
    assert_eq!((e.status, e.message.as_str()), (Status::BadRequest, "ids server error"));
    let e = ipc_to_response::<u8>(Err(IdsFailure::Other)).err().unwrap();
    assert_eq!((e.status, e.message.as_str()), (Status::Internal, "ids client error"));
}

fn config() -> IdsConfig {
    IdsConfig {
        mode: IdsMode::Ids,
        home_net: vec!["10.0.0.0/8".to_string()],
        external_net: Vec::new(),
        interfaces: vec!["em0".to_string()],
        alert_retention_days: 30,
        eve_log_enabled: false,
        eve_log_path: None,
        syslog_target: Some("log".to_string()),
        worker_count: Some(2),
        flow_table_size: None,
        stream_depth: None,
    }
}

fn no_change() -> UpdateConfigRequest {
    UpdateConfigRequest {
        mode: None,
        home_net: None,
        external_net: None,
        interfaces: None,
        alert_retention_days: None,
        eve_log_enabled: None,
        eve_log_path: None,
        syslog_target: None,
        worker_count: None,
        flow_table_size: None,
        stream_depth: None,
    }
}

#[test]
fn config_is_merged() {
    let mut q = no_change();
    q.mode = Some("ips".to_string());
    q.alert_retention_days = Some(7);
    q.eve_log_path = Some("/tmp/eve".to_string());
    let c = update_config(config(), q).ok().unwrap();
    assert_eq!(c.mode, IdsMode::Ips);
    assert_eq!(c.alert_retention_days, 7);
    assert_eq!(c.eve_log_path.as_deref(), Some("/tmp/eve"));
    assert_eq!(c.syslog_target.as_deref(), Some("log"));
    assert_eq!(c.home_net, vec!["10.0.0.0/8".to_string()]);
    assert_eq!(c.worker_count, Some(2));
    let mut q = no_change();
    q.mode = Some("disabled".to_string());
    assert_eq!(update_config(config(), q).ok().unwrap().mode, IdsMode::Disabled);
}

#[test]
fn unknown_mode_is_a_bad_request() {
    let mut q = no_change();
    q.mode = Some("IPS".to_string());
    let e = update_config(config(), q).err().unwrap();
    assert_eq!((e.status, e.message.as_str()), (Status::BadRequest, "invalid mode"));
}

#[test]
fn empty_update_keeps_the_config() {
    let c = update_config(config(), no_change()).ok().unwrap();
    assert_eq!(c.mode, IdsMode::Ids);
    assert_eq!(c.interfaces, vec!["em0".to_string()]);
    assert_eq!(c.alert_retention_days, 30);
}

#[test]
fn pages_have_defaults() {
    let q = AlertsQuery {
        severity: None,
        src_ip: None,
        signature_id: None,
        acknowledged: None,
        classification: None,
        limit: None,
        offset: Some(3),
    };
    assert_eq!(alerts_page(&q), (50, 3));
    assert_eq!(suppressions_page(&PageQuery { limit: None, offset: None }), (1000, 0));
    assert_eq!(suppressions_page(&PageQuery { limit: Some(0), offset: Some(-4) }), (1, 0));
    assert_eq!(suppressions_page(&PageQuery { limit: Some(9999), offset: Some(5) }), (5000, 5));
    let q = RulesQuery { ruleset_id: Some(ID.to_uppercase()), enabled: None, q: None, limit: None, offset: None };
    let p = rules_page(&q);
    assert_eq!(p.ruleset_id.as_deref(), Some(ID));
    assert_eq!((p.enabled_only, p.limit, p.offset), (false, 50, 0));
    let q = RulesQuery { ruleset_id: Some("x".to_string()), enabled: Some(true), q: None, limit: Some(1), offset: Some(2) };
    let p = rules_page(&q);
    assert_eq!(p.ruleset_id, None);
    assert_eq!((p.enabled_only, p.limit, p.offset), (true, 1, 2));
}

#[test]
fn messages_are_exact() {
    assert_eq!(purge_message(34, true), "34 alerts purged and space reclaimed");
    assert_eq!(purge_message(0, false), "0 alerts purged (space reclaim deferred: vacuum busy)");
    assert_eq!(purge_note(5), "ids: purged all alerts (5 rows)");
    assert_eq!(classified_message("benign"), "alert classified as benign");
}

fn ruleset() -> IdsRuleset {
    IdsRuleset {
        id: ID.to_string(),
        name: "et".to_string(),
        source_url: Some("https://rules".to_string()),
        rule_format: "suricata".to_string(),
        enabled: false,
        auto_update: true,
        update_interval_hours: 24,
        rule_count: 0,
    }
}

#[test]
fn ruleset_is_made_with_defaults() {
    let q = CreateRulesetRequest {
        name: "et".to_string(),
        source_url: None,
        rule_format: checked("suricata", true),
        enabled: None,
        auto_update: None,
        update_interval_hours: None,
    };
    let s = create_ruleset("new".to_string(), q.clone()).ok().unwrap();
    assert_eq!((s.enabled, s.auto_update, s.update_interval_hours, s.rule_count), (true, true, 24, 0));
    let mut bad = q;
    bad.rule_format.valid = false;
    assert!(matches!(create_ruleset("new".to_string(), bad), Err(Status::BadRequest)));
}

fn ruleset_change() -> UpdateRulesetRequest {
    UpdateRulesetRequest {
        name: None,
        source_url: None,
        rule_format: None,
        enabled: Some(true),
        auto_update: None,
        update_interval_hours: Some(6),
    }
}

#[test]
fn ruleset_is_changed() {
    let all = vec![ruleset()];
    let s = update_ruleset(ID, &all, ruleset_change()).ok().unwrap();
    assert!(s.enabled);
    assert_eq!(s.update_interval_hours, 6);
    assert_eq!(s.name, "et");
    assert!(needs_download(&s));
    let mut stored = s.clone();
    stored.rule_count = 99;
    let after = after_download(s.clone(), Some(&vec![stored]));
    assert_eq!(after.rule_count, 99);
    assert!(!needs_download(&after));
    assert_eq!(after_download(s.clone(), None).rule_count, 0);
    assert_eq!(after_download(s, Some(&Vec::new())).rule_count, 0);
}

#[test]
fn ruleset_change_is_refused() {
    let all = vec![ruleset()];
    assert!(matches!(update_ruleset("x", &all, ruleset_change()), Err(Status::BadRequest)));
    let other = "550e8400-e29b-41d4-a716-446655440001";
    assert!(matches!(update_ruleset(other, &all, ruleset_change()), Err(Status::NotFound)));
    let mut q = ruleset_change();
    q.rule_format = Some(checked("odd", false));
    assert!(matches!(update_ruleset(ID, &all, q), Err(Status::BadRequest)));
}

fn row() -> RuleRow {
    RuleRow {
        id: ID.to_string(),
        ruleset_id: ID.to_string(),
        sid: Some(2_000_001),
        rule_text: "alert".to_string(),
        msg: None,
        severity: 258,
        enabled: true,
        action_override: Some(checked("drop", true)),
        hit_count: 4,
        last_hit: Some("1970-01-01T00:01:00+00:00".to_string()),
        created_at: "bad".to_string(),
    }
}

const NOW: Moment = Moment { secs: 1000, nanos: 1 };

#[test]
fn rule_is_read_from_its_row() {
    let r = get_rule(Some(row()), NOW).ok().unwrap();
    assert_eq!(r.sid, Some(2_000_001));
    assert_eq!(r.severity, 2);
    assert_eq!(r.action_override.as_deref(), Some("drop"));
    assert_eq!(r.last_hit, Some(Moment { secs: 60, nanos: 0 }));
    assert_eq!(r.created_at, NOW);
    let mut w = row();
    w.created_at = "2001-09-09T03:46:40.5+02:00".to_string();
    w.action_override = Some(checked("odd", false));
    w.last_hit = None;
    let r = get_rule(Some(w), NOW).ok().unwrap();
    assert_eq!(r.created_at, Moment { secs: 1_000_000_000, nanos: 500_000_000 });
    assert_eq!(r.action_override, None);
    assert_eq!(r.last_hit, None);
}

#[test]
fn rule_that_cannot_be_read() {
    assert!(matches!(get_rule(None, NOW), Err(Status::NotFound)));
    let mut w = row();
    w.ruleset_id = "x".to_string();
    assert!(matches!(rule_from_row(w, None, NOW), Err(Status::Internal)));
}

#[test]
fn rule_changes_are_taken_apart() {
    let c = update_rule(ID, UpdateRuleRequest { enabled: Some(false), action_override: Some(String::new()) }).ok().unwrap();
    assert_eq!(c.enabled, Some(false));
    assert_eq!(c.action, Some(None));
    let c = update_rule(ID, UpdateRuleRequest { enabled: None, action_override: Some("drop".to_string()) }).ok().unwrap();
    assert_eq!(c.action, Some(Some("drop".to_string())));
    assert!(matches!(
        update_rule("x", UpdateRuleRequest { enabled: None, action_override: None }),
        Err(Status::BadRequest)
    ));
}

fn suppression(id: &str, made: &str, valid: bool) -> SuppressionRow {
    SuppressionRow {
        id: id.to_string(),
        sid: 7,
        suppress_type: checked("by_src", valid),
        ip_cidr: None,
        created_at: made.to_string(),
    }
}

#[test]
fn unreadable_suppressions_are_passed_over() {
    let good = "2001-09-09T01:46:40Z";
    let rows = vec![
        suppression(ID, good, true),
        suppression("x", good, true),
        suppression(ID, good, false),
        suppression(ID, "yesterday", true),
    ];
    let r = list_suppressions(&rows);
    assert_eq!(r.len(), 1);
    assert_eq!(r[0].sid, 7);
    assert_eq!(r[0].created_at, Moment { secs: 1_000_000_000, nanos: 0 });
    assert!(suppression_from_row(&rows[0], None).is_none());
}

#[test]
fn suppression_is_made() {
    let q = CreateSuppressionRequest { sid: 9, suppress_type: checked("by_src", true), ip_cidr: None };
    let s = create_suppression("new".to_string(), NOW, q.clone()).ok().unwrap();
    assert_eq!((s.sid, s.suppress_type.as_str(), s.created_at), (9, "by_src", NOW));
    let mut bad = q;
    bad.suppress_type.valid = false;
    assert!(matches!(create_suppression("new".to_string(), NOW, bad), Err(Status::BadRequest)));
}

#[test]
fn figures_add_up() {
    let live = LiveStats {
        mode: "ids".to_string(),
        rules_loaded: 47_000,
        running: true,
        packets_inspected: 1,
        alerts_total: 2,
        flow_count: 3,
        flow_reassembly_bytes: 4,
        uptime_secs: 5,
    };
    let mut on = ruleset();
    on.enabled = true;
    let r = get_stats(live, &vec![(1, 10), (4, 2)], Vec::new(), Vec::new(), &vec![ruleset(), on]);
    assert_eq!(r.severity_counts, vec![("critical".to_string(), 10), ("info".to_string(), 2)]);
    assert_eq!((r.enabled_rulesets, r.total_rulesets, r.loaded_rules), (1, 2, 47_000));
    assert_eq!(severity_label(2), "high");
    assert_eq!(severity_label(3), "medium");
}

#[test]
fn alerts_are_found_by_identifier() {
    assert_eq!(get_alert(ID, Some(Some(7))), Ok(7));
    assert_eq!(get_alert::<u8>(ID, Some(None)), Err(Status::NotFound));
    assert_eq!(get_alert::<u8>(ID, None), Err(Status::Internal));
    assert_eq!(get_alert("x", Some(Some(7))), Err(Status::BadRequest));
    assert_eq!(acknowledge_alert(ID, true).unwrap().message, "alert acknowledged");
    assert_eq!(acknowledge_alert(ID, false).err(), Some(Status::Internal));
    assert_eq!(classify_alert(ID, "benign", true).unwrap().message, "alert classified as benign");
    assert_eq!(classify_alert("x", "benign", true).err(), Some(Status::BadRequest));
    assert_eq!(delete_ruleset(ID, true).unwrap().message, "ruleset deleted");
    assert_eq!(delete_ruleset(ID, false).err(), Some(Status::Internal));
}
