//! The plugins.

use vstd::prelude::*;
use vstd::string::*;

use crate::status::Status;
use crate::text::{cat3, same};

verus! {

/// A plugin in a list.
#[derive(Clone, Debug)]
pub struct PluginListEntry {
    pub name: String,
    pub version: String,
    pub description: String,
    pub author: String,
    pub state: String,
    pub hooks: Vec<String>,
}

/// The list of the plugins.
#[derive(Clone, Debug)]
pub struct PluginsResponse {
    pub plugins: Vec<PluginListEntry>,
    pub total: usize,
    pub running: usize,
}

/// A plugin that comes with the firewall.
#[derive(Clone, Copy, Debug, PartialEq, Eq, Structural)]
pub enum Builtin {
    CustomLogger,
    IpReputation,
    WebhookNotifier,
}

/// The name under which a plugin is registered.
pub open spec fn builtin_name(b: Builtin) -> Seq<char> {
    match b {
        Builtin::CustomLogger => "custom-logger"@,
        Builtin::IpReputation => "ip-reputation"@,
        Builtin::WebhookNotifier => "webhook-notifier"@,
    }
}

/// The plugin of a name: of the one that it is registered under, or of the
/// short one that was used before.
pub open spec fn builtin_of(name: Seq<char>) -> Option<Builtin> {
    if name == "custom-logger"@ || name == "logging"@ {
        Some(Builtin::CustomLogger)
    } else if name == "ip-reputation"@ || name == "ip_reputation"@ {
        Some(Builtin::IpReputation)
    } else if name == "webhook-notifier"@ || name == "webhook"@ {
        Some(Builtin::WebhookNotifier)
    } else {
        None
    }
}

/// The plugin of a name, which is then made anew.
pub fn instantiate_builtin(name: &str) -> (r: Option<Builtin>)
    ensures
        r == builtin_of(name@),
{
    if same(name, "custom-logger") || same(name, "logging") {
        Some(Builtin::CustomLogger)
    } else if same(name, "ip-reputation") || same(name, "ip_reputation") {
        Some(Builtin::IpReputation)
    } else if same(name, "webhook-notifier") || same(name, "webhook") {
        Some(Builtin::WebhookNotifier)
    } else {
        None
    }
}

/// The name under which the plugin of a name is registered.
pub fn canonical_builtin(name: &str) -> (r: Option<&'static str>)
    ensures
        match builtin_of(name@) {
            Some(b) => r matches Some(t) && t@ == builtin_name(b),
            None => r is None,
        },
{
    match instantiate_builtin(name) {
        Some(Builtin::CustomLogger) => Some("custom-logger"),
        Some(Builtin::IpReputation) => Some("ip-reputation"),
        Some(Builtin::WebhookNotifier) => Some("webhook-notifier"),
        None => None,
    }
}

/// The name under which a plugin is registered stands for that plugin, and
/// different plugins have different names.
pub proof fn builtin_names_read_back(b: Builtin, c: Builtin)
    ensures
        builtin_of(builtin_name(b)) == Some(b),
        builtin_name(b) == builtin_name(c) ==> b == c,
{
    reveal_strlit("custom-logger");
    reveal_strlit("logging");
    reveal_strlit("ip-reputation");
    reveal_strlit("ip_reputation");
    reveal_strlit("webhook-notifier");
    reveal_strlit("webhook");
    assert("custom-logger"@[0] == 'c');
    assert("ip-reputation"@[0] == 'i');
    assert("webhook-notifier"@[0] == 'w');
    assert("logging"@[0] == 'l');
    assert("ip_reputation"@[0] == 'i');
}

/// The name that the manager of the plugins knows: the registered one of a
/// plugin that comes with the firewall, any other as it is.
pub open spec fn registered(name: Seq<char>) -> Seq<char> {
    match builtin_of(name) {
        Some(b) => builtin_name(b),
        None => name,
    }
}

/// The name that the manager of the plugins knows.
pub fn registered_name(name: &str) -> (r: String)
    ensures
        r@ == registered(name@),
{
    match canonical_builtin(name) {
        Some(t) => t.to_owned(),
        None => name.to_owned(),
    }
}

/// A registered name stands for itself.
pub proof fn registered_is_idempotent(name: Seq<char>)
    ensures
        registered(registered(name)) == registered(name),
{
    match builtin_of(name) {
        Some(b) => builtin_names_read_back(b, b),
        None => {},
    }
}

// ---------------------------------------------------------------------------
// Switching
// ---------------------------------------------------------------------------

/// What is done with the instance of a plugin.
#[derive(Clone, Copy, Debug, PartialEq, Eq, Structural)]
pub enum PluginAction {
    /// It is unloaded.
    Unload,
    /// It is unloaded and made anew with the settings that are stored.
    Restart(Builtin),
    /// Nothing: there is no such plugin.
    Nothing,
}

/// How a plugin is switched on or off. The wish is stored first, whatever
/// comes of it.
#[derive(Clone, Debug)]
pub struct PluginSwitch {
    pub name: String,
    pub enabled: bool,
    /// The name that the manager knows.
    pub registered: String,
    pub action: PluginAction,
    pub message: String,
}

/// What is done with a plugin that is switched.
pub open spec fn switch_action(name: Seq<char>, enabled: bool) -> PluginAction {
    if !enabled {
        PluginAction::Unload
    } else {
        match builtin_of(name) {
            Some(b) => PluginAction::Restart(b),
            None => PluginAction::Nothing,
        }
    }
}

/// What is said of a plugin that was switched.
pub open spec fn switch_text(name: Seq<char>, action: PluginAction) -> Seq<char> {
    match action {
        PluginAction::Unload => "Plugin '"@ + name + "' disabled."@,
        PluginAction::Restart(_) => "Plugin '"@ + name + "' enabled and running."@,
        PluginAction::Nothing => "Unknown plugin '"@ + name + "'."@,
    }
}

/// Switches a plugin on or off: on, unless the request says otherwise. A
/// request without a name is a bad request.
pub fn enable_plugin(name: Option<&str>, enabled: Option<bool>) -> (r: Result<PluginSwitch, Status>)
    ensures
        match name {
            None => r == Err::<PluginSwitch, Status>(Status::BadRequest),
            Some(n) => r matches Ok(s) && {
                &&& s.name@ == n@
                &&& s.enabled == (enabled != Some(false))
                &&& s.registered@ == registered(n@)
                &&& s.action == switch_action(n@, s.enabled)
                &&& s.message@ == switch_text(n@, s.action)
            },
        },
{
    let n = match name {
        Some(n) => n,
        None => {
            return Err(Status::BadRequest);
        },
    };
    let on = match enabled {
        Some(b) => b,
        None => true,
    };
    let (action, message) = if !on {
        (PluginAction::Unload, cat3("Plugin '", n, "' disabled."))
    } else {
        match instantiate_builtin(n) {
            Some(b) => (PluginAction::Restart(b), cat3("Plugin '", n, "' enabled and running.")),
            None => (PluginAction::Nothing, cat3("Unknown plugin '", n, "'.")),
        }
    };
    Ok(PluginSwitch { name: n.to_owned(), enabled: on, registered: registered_name(n), action, message })
}

/// A plugin that the manager lists.
#[derive(Clone, Debug)]
pub struct ListedPlugin {
    pub name: String,
    pub running: bool,
}

/// The plugin with that registered name is running.
pub open spec fn is_running(v: Seq<ListedPlugin>, name: Seq<char>) -> bool {
    exists|i: int| 0 <= i < v.len() && (#[trigger] v[i]).name@ == name && v[i].running
}

/// Whether new settings take a restart: the plugin is running, and it comes
/// with the firewall. Elsewhere they are only stored.
pub fn config_restart(name: &str, listed: &Vec<ListedPlugin>) -> (r: Option<Builtin>)
    ensures
        r == (if is_running(listed@, registered(name@)) {
            builtin_of(name@)
        } else {
            None
        }),
{
    let known = registered_name(name);
    let mut i: usize = 0;
    while i < listed.len()
        invariant
            i <= listed@.len(),
            known@ == registered(name@),
            forall|k: int| 0 <= k < i ==> !((#[trigger] listed@[k]).name@ == known@ && listed@[k].running),
        decreases listed.len() - i,
    {
        if listed[i].running && same(listed[i].name.as_str(), known.as_str()) {
            assert(listed@[i as int].name@ == known@);
            return instantiate_builtin(name);
        }
        i = i + 1;
    }
    None
}

/// What came of new settings.
#[derive(Clone, Debug)]
pub enum ConfigOutcome {
    /// They were stored.
    Stored,
    /// The plugin was restarted with them.
    Applied,
    /// The plugin could not be restarted with them. It is then listed as
    /// stopped.
    Failed(String),
}

/// What is said of new settings.
pub open spec fn config_text(name: Seq<char>, o: ConfigOutcome) -> Seq<char> {
    match o {
        ConfigOutcome::Stored => "Plugin '"@ + name + "' config updated."@,
        ConfigOutcome::Applied => "Plugin '"@ + name + "' config updated and applied."@,
        ConfigOutcome::Failed(e) => "Plugin '"@ + name
            + "' config saved, but restarting it with the new settings failed: "@ + e@,
    }
}

/// What is said of new settings.
pub fn config_message(name: &str, o: &ConfigOutcome) -> (r: String)
    ensures
        r@ == config_text(name@, *o),
{
    match o {
        ConfigOutcome::Stored => cat3("Plugin '", name, "' config updated."),
        ConfigOutcome::Applied => cat3("Plugin '", name, "' config updated and applied."),
        ConfigOutcome::Failed(e) => crate::text::cat4(
            "Plugin '",
            name,
            "' config saved, but restarting it with the new settings failed: ",
            e.as_str(),
        ),
    }
}

/// Whether a plugin is switched on, out of its row: off where it has none.
pub fn stored_enabled(row: Option<i32>) -> (r: bool)
    ensures
        r == (row matches Some(n) && n != 0),
{
    match row {
        Some(n) => n != 0,
        None => false,
    }
}

/// What is said of the log of a plugin, and how many plugins are running.
/// `None` where there is no such plugin.
pub fn plugin_log(name: &str, listed: &Vec<ListedPlugin>) -> (r: Option<usize>)
    ensures
        r is Some <==> exists|i: int| 0 <= i < listed@.len() && (#[trigger] listed@[i]).name@ == name@,
        r matches Some(n) ==> n == running_count(listed@),
{
    let mut found = false;
    let mut n: usize = 0;
    let mut i: usize = 0;
    while i < listed.len()
        invariant
            i <= listed@.len(),
            n <= i,
            n == running_count(listed@.take(i as int)),
            found == exists|k: int| 0 <= k < i && (#[trigger] listed@[k]).name@ == name@,
        decreases listed.len() - i,
    {
        assert(listed@.take(i + 1).drop_last() =~= listed@.take(i as int));
        if listed[i].running {
            n = n + 1;
        }
        if same(listed[i].name.as_str(), name) {
            assert(listed@[i as int].name@ == name@);
            found = true;
        }
        i = i + 1;
    }
    assert(listed@.take(listed@.len() as int) =~= listed@);
    if found {
        Some(n)
    } else {
        None
    }
}

/// How many of the plugins are running.
pub open spec fn running_count(v: Seq<ListedPlugin>) -> nat
    decreases v.len(),
{
    if v.len() == 0 {
        0
    } else if v.last().running {
        running_count(v.drop_last()) + 1
    } else {
        running_count(v.drop_last())
    }
}

/// A plugin that is switched on when the server starts.
#[derive(Clone, Debug)]
pub struct PluginStart {
    pub name: String,
    /// The name under which the instance is unloaded that was registered
    /// switched off.
    pub registered: String,
    /// The plugin that is made anew, where it comes with the firewall.
    pub builtin: Option<Builtin>,
}

/// The plugins that are switched on when the server starts, out of the stored
/// names.
pub fn enabled_plugins(names: &Vec<String>) -> (r: Vec<PluginStart>)
    ensures
        r@.len() == names@.len(),
        forall|i: int|
            0 <= i < r@.len() ==> (#[trigger] r@[i]).name == names@[i] && r@[i].registered@ == registered(names@[i]@)
                && r@[i].builtin == builtin_of(names@[i]@),
{
    let mut r: Vec<PluginStart> = Vec::new();
    let mut i: usize = 0;
    while i < names.len()
        invariant
            i <= names@.len(),
            r@.len() == i,
            forall|k: int|
                0 <= k < i ==> (#[trigger] r@[k]).name == names@[k] && r@[k].registered@ == registered(names@[k]@)
                    && r@[k].builtin == builtin_of(names@[k]@),
        decreases names.len() - i,
    {
        let name = names[i].as_str();
        r.push(
            PluginStart {
                name: names[i].clone(),
                registered: registered_name(name),
                builtin: instantiate_builtin(name),
            },
        );
        i = i + 1;
    }
    r
}

// ---------------------------------------------------------------------------
// The audit log as a source of events
// ---------------------------------------------------------------------------

/// Where the plugins are in the audit log.
#[derive(Clone, Copy, Debug, PartialEq, Eq, Structural)]
pub struct AuditTail {
    /// The last row that was looked at.
    pub cursor: i64,
    /// A plugin was running at the last look.
    pub was_active: bool,
}

/// What is done at a tick of the clock.
#[derive(Clone, Copy, Debug, PartialEq, Eq, Structural)]
pub enum TailStep {
    /// Nothing: no plugin is running.
    Idle,
    /// The end of the log is looked up; it goes to [`AuditTail::moved`].
    FindEnd,
    /// The rows behind the cursor are handed to the plugins, in order; they
    /// go to [`AuditTail::moved`].
    Deliver(i64),
}

impl AuditTail {
    /// What is done at a tick, with so many plugins running.
    pub open spec fn tick_step(self, running: usize) -> TailStep {
        if running == 0 {
            TailStep::Idle
        } else if !self.was_active {
            TailStep::FindEnd
        } else {
            TailStep::Deliver(self.cursor)
        }
    }

    /// The state after a tick, with so many plugins running.
    pub open spec fn after_tick(self, running: usize) -> AuditTail {
        AuditTail { cursor: self.cursor, was_active: running > 0 }
    }

    /// The state after the rows of a step.
    pub open spec fn after_rows(self, rows: Seq<i64>) -> AuditTail {
        AuditTail {
            cursor: if rows.len() > 0 {
                rows.last()
            } else {
                self.cursor
            },
            was_active: self.was_active,
        }
    }

    /// What is done at a tick, with so many plugins running. What was written
    /// while none was running is passed over.
    pub fn tick(&mut self, running: usize) -> (step: TailStep)
        ensures
            *final(self) == old(self).after_tick(running),
            step == old(self).tick_step(running),
    {
        if running == 0 {
            self.was_active = false;
            return TailStep::Idle;
        }
        if !self.was_active {
            self.was_active = true;
            return TailStep::FindEnd;
        }
        TailStep::Deliver(self.cursor)
    }

    /// The cursor after a step: at the end of the log where that was looked
    /// up, behind the last row that was delivered, and where it was if there
    /// was none.
    pub fn moved(&mut self, rows: &Vec<i64>)
        ensures
            *final(self) == old(self).after_rows(rows@),
    {
        if rows.len() > 0 {
            self.cursor = rows[rows.len() - 1];
        }
    }
}

/// A change of one of the firewall's tables that a plugin asks for.
#[derive(Clone, Debug)]
pub enum HookAction {
    AddToTable { table: String, ip: String },
    RemoveFromTable { table: String, ip: String },
    /// Anything else; it changes no table.
    Other,
}

/// The table actions among those that the plugins asked for, in order.
pub open spec fn table_changes(v: Seq<HookAction>) -> Seq<HookAction>
    decreases v.len(),
{
    if v.len() == 0 {
        Seq::<HookAction>::empty()
    } else if v.last() is Other {
        table_changes(v.drop_last())
    } else {
        table_changes(v.drop_last()).push(v.last())
    }
}

/// The table actions among those that the plugins asked for.
pub fn table_actions(v: &Vec<HookAction>) -> (r: Vec<HookAction>)
    ensures
        r@ == table_changes(v@),
{
    let mut r: Vec<HookAction> = Vec::new();
    let mut i: usize = 0;
    while i < v.len()
        invariant
            i <= v@.len(),
            r@ == table_changes(v@.take(i as int)),
        decreases v.len() - i,
    {
        assert(v@.take(i + 1).drop_last() =~= v@.take(i as int));
        match &v[i] {
            HookAction::AddToTable { table, ip } => {
                r.push(HookAction::AddToTable { table: table.clone(), ip: ip.clone() });
            },
            HookAction::RemoveFromTable { table, ip } => {
                r.push(HookAction::RemoveFromTable { table: table.clone(), ip: ip.clone() });
            },
            HookAction::Other => {},
        }
        i = i + 1;
    }
    assert(v@.take(v@.len() as int) =~= v@);
    r
}

/// The rows come in order, from behind the cursor on.
pub open spec fn rows_follow(cursor: i64, rows: Seq<i64>) -> bool {
    &&& forall|i: int| 0 <= i < rows.len() ==> cursor < #[trigger] rows[i]
    &&& forall|i: int, j: int| 0 <= i < j < rows.len() ==> #[trigger] rows[i] < #[trigger] rows[j]
}

/// No event is delivered twice: once rows were delivered, none of them comes
/// again.
pub proof fn no_event_comes_twice(t: AuditTail, rows: Seq<i64>, next: Seq<i64>)
    requires
        rows_follow(t.cursor, rows),
        rows_follow(t.after_rows(rows).cursor, next),
    ensures
        forall|i: int, j: int| 0 <= i < rows.len() && 0 <= j < next.len() ==> #[trigger] rows[i] < #[trigger] next[j],
{
    assert forall|i: int, j: int| 0 <= i < rows.len() && 0 <= j < next.len() implies #[trigger] rows[i]
        < #[trigger] next[j] by {
        assert(rows[i] <= rows[rows.len() - 1]);
    }
}

/// What is written while no plugin is running is never delivered: the first
/// tick at which one runs again goes to the end of the log first.
pub proof fn idle_time_is_passed_over(t: AuditTail, running: usize, end: i64, later: usize)
    requires
        running > 0,
        later > 0,
    ensures
        t.after_tick(0).tick_step(running) == TailStep::FindEnd,
        t.after_tick(0).after_tick(running).after_rows(seq![end]).tick_step(later) == TailStep::Deliver(end),
{
}

// ---------------------------------------------------------------------------
// Laws
// ---------------------------------------------------------------------------

/// Each plugin is known under its name and under a shorter one, and a name of none stays.
pub proof fn plugins_have_their_names(name: Seq<char>)
    ensures
        builtin_of("custom-logger"@) == Some(Builtin::CustomLogger),
        builtin_of("logging"@) == Some(Builtin::CustomLogger),
        builtin_of("ip-reputation"@) == Some(Builtin::IpReputation),
        builtin_of("ip_reputation"@) == Some(Builtin::IpReputation),
        builtin_of("webhook-notifier"@) == Some(Builtin::WebhookNotifier),
        builtin_of("webhook"@) == Some(Builtin::WebhookNotifier),
        builtin_of(name) is None ==> registered(name) == name,
        builtin_of(name) == Some(Builtin::CustomLogger) ==> registered(name) == "custom-logger"@,
        builtin_of(name) == Some(Builtin::IpReputation) ==> registered(name) == "ip-reputation"@,
        builtin_of(name) == Some(Builtin::WebhookNotifier) ==> registered(name) == "webhook-notifier"@,
        name != "custom-logger"@ && name != "logging"@ && name != "ip-reputation"@ && name != "ip_reputation"@
            && name != "webhook-notifier"@ && name != "webhook"@ ==> builtin_of(name) is None,
{
    reveal_strlit("custom-logger");
    reveal_strlit("logging");
    reveal_strlit("ip-reputation");
    reveal_strlit("ip_reputation");
    reveal_strlit("webhook-notifier");
    reveal_strlit("webhook");
    assert("custom-logger"@[0] == 'c' && "logging"@[0] == 'l' && "ip-reputation"@[0] == 'i'
        && "ip_reputation"@[0] == 'i'
        && "webhook-notifier"@[0] == 'w' && "webhook"@[0] == 'w');
}

/// A plugin that is switched off is unloaded, known or not; one that is switched on is made
/// anew where it is known, and nothing is done otherwise. The answer says which.
pub proof fn switching_a_plugin(name: Seq<char>, b: Builtin)
    ensures
        switch_action(name, false) == PluginAction::Unload,
        builtin_of(name) == Some(b) ==> switch_action(name, true) == PluginAction::Restart(b),
        builtin_of(name) is None ==> switch_action(name, true) == PluginAction::Nothing,
        switch_text(name, PluginAction::Unload) == "Plugin '"@ + name + "' disabled."@,
        switch_text(name, PluginAction::Restart(b)) == "Plugin '"@ + name + "' enabled and running."@,
        switch_text(name, PluginAction::Nothing) == "Unknown plugin '"@ + name + "'."@,
{
}

/// The answer to new settings says whether they were stored only, applied too, or could not be
/// applied, and then why.
pub proof fn settings_of_a_plugin_are_answered(name: Seq<char>, e: String)
    ensures
        config_text(name, ConfigOutcome::Stored) == "Plugin '"@ + name + "' config updated."@,
        config_text(name, ConfigOutcome::Applied) == "Plugin '"@ + name + "' config updated and applied."@,
        config_text(name, ConfigOutcome::Failed(e)) == "Plugin '"@ + name
            + "' config saved, but restarting it with the new settings failed: "@ + e@,
{
}

/// A plugin runs where the list has it under its name as running.
pub proof fn running_plugins_are_found(v: Seq<ListedPlugin>, name: Seq<char>, i: int)
    ensures
        0 <= i < v.len() && v[i].name@ == name && v[i].running ==> is_running(v, name),
        (forall|k: int| 0 <= k < v.len() ==> (#[trigger] v[k]).name@ == name ==> !v[k].running)
            ==> !is_running(v, name),
{
}

/// The running plugins of two lists together are those of either.
pub proof fn running_plugins_are_counted(a: Seq<ListedPlugin>, b: Seq<ListedPlugin>)
    ensures
        running_count(Seq::<ListedPlugin>::empty()) == 0,
        running_count(a + b) == running_count(a) + running_count(b),
    decreases b.len(),
{
    if b.len() == 0 {
        assert(a + b =~= a);
    } else {
        assert((a + b).drop_last() =~= a + b.drop_last());
        running_plugins_are_counted(a, b.drop_last());
    }
}

/// A plugin counts where it runs.
pub proof fn running_plugin_counts_once(p: ListedPlugin)
    ensures
        running_count(Seq::<ListedPlugin>::empty().push(p)) == (if p.running { 1nat } else { 0nat }),
{
    reveal_with_fuel(running_count, 2);
    assert(Seq::<ListedPlugin>::empty().push(p).drop_last() =~= Seq::<ListedPlugin>::empty());
}

/// Without a running plugin nothing is done; when the first starts to run the end of the log is
/// looked up, and from then on the rows behind the cursor are handed over.
pub proof fn log_is_followed_while_plugins_run(t: AuditTail, running: usize)
    ensures
        t.tick_step(0) == TailStep::Idle,
        running > 0 && !t.was_active ==> t.tick_step(running) == TailStep::FindEnd,
        running > 0 && t.was_active ==> t.tick_step(running) == TailStep::Deliver(t.cursor),
        t.after_tick(running).cursor == t.cursor,
        t.after_tick(running).was_active <==> running > 0,
{
}

/// After rows the cursor stands at the last of them; without any it stays.
pub proof fn cursor_stands_at_the_last_row(t: AuditTail, rows: Seq<i64>)
    ensures
        rows.len() > 0 ==> t.after_rows(rows).cursor == rows[rows.len() - 1],
        rows.len() == 0 ==> t.after_rows(rows) == t,
        t.after_rows(rows).was_active == t.was_active,
{
}

/// The changes to tables among several actions are those of each part, in order.
pub proof fn table_changes_stay_in_order(a: Seq<HookAction>, b: Seq<HookAction>)
    ensures
        table_changes(Seq::<HookAction>::empty()) == Seq::<HookAction>::empty(),
        table_changes(a + b) == table_changes(a) + table_changes(b),
    decreases b.len(),
{
    if b.len() == 0 {
        assert(a + b =~= a);
        assert(table_changes(a) + table_changes(b) =~= table_changes(a));
    } else {
        assert((a + b).drop_last() =~= a + b.drop_last());
        table_changes_stay_in_order(a, b.drop_last());
        assert(table_changes(a + b) =~= table_changes(a) + table_changes(b));
    }
}

/// An addition to a table and a removal from one are carried out as they are, and nothing else
/// is.
pub proof fn only_table_changes_are_carried_out(a: HookAction)
    ensures
        a is AddToTable || a is RemoveFromTable ==> table_changes(Seq::<HookAction>::empty().push(a)) == seq![a],
        a is Other ==> table_changes(Seq::<HookAction>::empty().push(a)).len() == 0,
{
    reveal_with_fuel(table_changes, 2);
    assert(Seq::<HookAction>::empty().push(a).drop_last() =~= Seq::<HookAction>::empty());
}

/// A plugin is switched by its name, on unless it is switched off; without a name the request is
/// a bad one.
pub proof fn plugins_are_switched(n: &str, enabled: Option<bool>, r: Result<PluginSwitch, Status>, b: bool, k: i32)
    ensures
        call_ensures(enable_plugin, (None::<&str>, enabled), r)
            ==> r == Err::<PluginSwitch, Status>(Status::BadRequest),
        call_ensures(enable_plugin, (Some(n), enabled), r) ==> r is Ok && r->Ok_0.name@ == n@ && (r->Ok_0.enabled
            <==> enabled != Some(false)) && r->Ok_0.registered@ == registered(n@),
        call_ensures(enable_plugin, (Some(n), Some(false)), r) ==> r->Ok_0.action == PluginAction::Unload
            && r->Ok_0.message@ == "Plugin '"@ + n@ + "' disabled."@,
        call_ensures(enable_plugin, (Some(n), Some(true)), r) ==> (builtin_of(n@) matches Some(x)
            ==> r->Ok_0.action == PluginAction::Restart(x)
            && r->Ok_0.message@ == "Plugin '"@ + n@ + "' enabled and running."@),
        call_ensures(stored_enabled, (Some(k),), b) ==> (b <==> k != 0),
        call_ensures(stored_enabled, (None::<i32>,), b) ==> !b,
{
}

/// New settings restart a plugin where it runs; the log of a plugin is there where it is listed.
pub proof fn running_plugins_take_their_settings(name: &str, listed: &Vec<ListedPlugin>, r: Option<Builtin>,
    l: Option<usize>, i: int)
    ensures
        call_ensures(config_restart, (name, listed), r) && 0 <= i < listed@.len()
            && listed@[i].name@ == registered(name@) && listed@[i].running ==> r == builtin_of(name@),
        call_ensures(config_restart, (name, listed), r) && (forall|j: int| 0 <= j < listed@.len()
            ==> !(#[trigger] listed@[j]).running) ==> r is None,
        call_ensures(plugin_log, (name, listed), l) ==> (l matches Some(n) ==> n == running_count(listed@)),
        call_ensures(plugin_log, (name, listed), l) && l is Some ==> exists|j: int| 0 <= j < listed@.len()
            && (#[trigger] listed@[j]).name@ == name@,
        call_ensures(plugin_log, (name, listed), l) && listed@.len() == 0 ==> l is None,
{
}

/// A tick moves nothing but the mark that a plugin runs, and rows move the cursor alone.
pub proof fn tail_follows_the_log(running: usize, rows_read: &Vec<i64>, step: TailStep, d: ())
    ensures
        forall|l: &mut AuditTail| #[trigger] call_ensures(AuditTail::tick, (l, running), step)
            ==> final(l).cursor == (*l).cursor && (final(l).was_active <==> running > 0) && (running == 0
            ==> step == TailStep::Idle) && (running > 0 && !(*l).was_active ==> step == TailStep::FindEnd)
            && (running > 0 && (*l).was_active ==> step == TailStep::Deliver((*l).cursor)),
        forall|l: &mut AuditTail| #[trigger] call_ensures(AuditTail::moved, (l, rows_read), d)
            ==> final(l).was_active == (*l).was_active && (rows_read@.len() > 0
            ==> final(l).cursor == rows_read@[rows_read@.len() - 1]) && (rows_read@.len() == 0
            ==> final(l).cursor == (*l).cursor),
{
}

} // verus!
