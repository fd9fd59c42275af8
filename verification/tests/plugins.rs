use aifw_api::plugins::{
    canonical_builtin, config_message, config_restart, enable_plugin, enabled_plugins, instantiate_builtin, plugin_log,
    registered_name, stored_enabled, table_actions, AuditTail, Builtin, ConfigOutcome, HookAction, ListedPlugin, PluginAction,
    TailStep,
};
use aifw_api::status::Status;

#[test]
fn canonical_builtin_matches_plugin_info_names() {
    for key in ["custom-logger", "ip-reputation", "webhook-notifier"] {
        let canonical = canonical_builtin(key).expect("builtin key must resolve");
        let b = instantiate_builtin(key).expect("builtin must instantiate");
        assert_eq!(instantiate_builtin(canonical), Some(b));
        assert_eq!(canonical, key, "canonical name drifted for '{key}'");
    }
}

#[test]
fn short_names_stand_for_the_same_plugins() {
    assert_eq!(canonical_builtin("logging"), Some("custom-logger"));
    assert_eq!(canonical_builtin("ip_reputation"), Some("ip-reputation"));
    assert_eq!(canonical_builtin("webhook"), Some("webhook-notifier"));
    assert_eq!(canonical_builtin("other"), None);
    assert_eq!(registered_name("logging"), "custom-logger");
    assert_eq!(registered_name("other"), "other");
}

#[test]
fn plugins_are_switched() {
    let s = enable_plugin(Some("logging"), None).unwrap();
    assert!(s.enabled);
    assert_eq!(s.registered, "custom-logger");
    assert_eq!(s.action, PluginAction::Restart(Builtin::CustomLogger));
    assert_eq!(s.message, "Plugin 'logging' enabled and running.");
    let s = enable_plugin(Some("x"), Some(false)).unwrap();
    assert_eq!(s.action, PluginAction::Unload);
    assert_eq!(s.message, "Plugin 'x' disabled.");
    let s = enable_plugin(Some("x"), Some(true)).unwrap();
    assert_eq!(s.action, PluginAction::Nothing);
    assert_eq!(s.message, "Unknown plugin 'x'.");
    assert!(matches!(enable_plugin(None, Some(true)), Err(Status::BadRequest)));
}

fn listed(name: &str, running: bool) -> ListedPlugin {
    ListedPlugin { name: name.to_string(), running }
}

#[test]
fn running_plugin_restarts_with_new_settings() {
    let list = vec![listed("custom-logger", true), listed("ip-reputation", false), listed("mine", true)];
    assert_eq!(config_restart("logging", &list), Some(Builtin::CustomLogger));
    assert_eq!(config_restart("ip-reputation", &list), None);
    assert_eq!(config_restart("mine", &list), None);
    assert_eq!(config_message("p", &ConfigOutcome::Stored), "Plugin 'p' config updated.");
    assert_eq!(config_message("p", &ConfigOutcome::Applied), "Plugin 'p' config updated and applied.");
    assert_eq!(
        config_message("p", &ConfigOutcome::Failed("no".to_string())),
        "Plugin 'p' config saved, but restarting it with the new settings failed: no"
    );
}

#[test]
fn plugin_log_counts_those_running() {
    let list = vec![listed("a", true), listed("b", false), listed("c", true)];
    assert_eq!(plugin_log("b", &list), Some(2));
    assert_eq!(plugin_log("d", &list), None);
}

#[test]
fn stored_switch_is_off_by_default() {
    assert!(!stored_enabled(None));
    assert!(!stored_enabled(Some(0)));
    assert!(stored_enabled(Some(1)));
}

#[test]
fn stored_plugins_start_under_their_names() {
    let r = enabled_plugins(&vec!["webhook".to_string(), "mine".to_string()]);
    assert_eq!(r[0].registered, "webhook-notifier");
    assert_eq!(r[0].builtin, Some(Builtin::WebhookNotifier));
    assert_eq!(r[1].registered, "mine");
    assert_eq!(r[1].builtin, None);
}

#[test]
fn idle_time_is_passed_over() {
    let mut t = AuditTail { cursor: 10, was_active: false };
    assert_eq!(t.tick(0), TailStep::Idle);
    assert_eq!(t.tick(1), TailStep::FindEnd);
    t.moved(&vec![50]);
    assert_eq!(t.tick(1), TailStep::Deliver(50));
    t.moved(&vec![51, 52, 55]);
    assert_eq!(t.tick(2), TailStep::Deliver(55));
    t.moved(&Vec::new());
    assert_eq!(t.tick(2), TailStep::Deliver(55));
    assert_eq!(t.tick(0), TailStep::Idle);
    assert_eq!(t.tick(1), TailStep::FindEnd);
}

#[test]
fn only_table_actions_are_applied() {
    let v = vec![
        HookAction::Other,
        HookAction::AddToTable { table: "bad".to_string(), ip: "1.2.3.4".to_string() },
        HookAction::RemoveFromTable { table: "bad".to_string(), ip: "5.6.7.8".to_string() },
    ];
    let r = table_actions(&v);
    assert_eq!(r.len(), 2);
    assert!(matches!(&r[0], HookAction::AddToTable { table, ip } if table == "bad" && ip == "1.2.3.4"));
    assert!(matches!(&r[1], HookAction::RemoveFromTable { ip, .. } if ip == "5.6.7.8"));
}
