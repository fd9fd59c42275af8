//! The intrusion detection.

use vstd::prelude::*;
use vstd::string::*;

use crate::backup::model::Checked;
use crate::identifiers::{answer_change, change_answer, require_uuid, said, uuid_text};
use crate::number::{dec, fmt_u64};
use crate::status::{refuse, MessageResponse, Refusal, Status};
use crate::text::{cat2, cat3, same};

verus! {

// ---------------------------------------------------------------------------
// Answers of the service
// ---------------------------------------------------------------------------

/// How a call of the service can fail.
#[derive(Clone, Copy, Debug, PartialEq, Eq, Structural)]
pub enum IdsFailure {
    /// It is not there.
    Unavailable,
    /// It did not answer in time.
    Timeout,
    /// It refused.
    Server,
    /// Anything else.
    Other,
}

/// The status of a failed call.
pub open spec fn failure_status(f: IdsFailure) -> Status {
    match f {
        IdsFailure::Unavailable => Status::Unavailable,
        IdsFailure::Timeout => Status::Unavailable,
        IdsFailure::Server => Status::BadRequest,
        IdsFailure::Other => Status::Internal,
    }
}

/// What is said of a failed call. It tells nothing of the service's inside.
pub open spec fn failure_text(f: IdsFailure) -> Seq<char> {
    match f {
        IdsFailure::Unavailable => "ids service unavailable"@,
        IdsFailure::Timeout => "ids service unavailable"@,
        IdsFailure::Server => "ids server error"@,
        IdsFailure::Other => "ids client error"@,
    }
}

/// The answer to a request that called the service.
pub fn ipc_to_response<T>(r: Result<T, IdsFailure>) -> (a: Result<T, Refusal>)
    ensures
        match r {
            Ok(v) => a == Ok::<T, Refusal>(v),
            Err(f) => a matches Err(e) && e.status == failure_status(f) && e.message@ == failure_text(f),
        },
{
    match r {
        Ok(v) => Ok(v),
        Err(IdsFailure::Unavailable) => Err(refuse(Status::Unavailable, "ids service unavailable".to_owned())),
        Err(IdsFailure::Timeout) => Err(refuse(Status::Unavailable, "ids service unavailable".to_owned())),
        Err(IdsFailure::Server) => Err(refuse(Status::BadRequest, "ids server error".to_owned())),
        Err(IdsFailure::Other) => Err(refuse(Status::Internal, "ids client error".to_owned())),
    }
}

// ---------------------------------------------------------------------------
// Configuration
// ---------------------------------------------------------------------------

/// What the detection does with what it finds.
#[derive(Clone, Copy, Debug, PartialEq, Eq, Structural)]
pub enum IdsMode {
    /// Reports it.
    Ids,
    /// Blocks it.
    Ips,
    /// Finds nothing.
    Disabled,
}

/// The configuration of the detection.
#[derive(Clone, Debug)]
pub struct IdsConfig {
    pub mode: IdsMode,
    pub home_net: Vec<String>,
    pub external_net: Vec<String>,
    pub interfaces: Vec<String>,
    pub alert_retention_days: u32,
    pub eve_log_enabled: bool,
    pub eve_log_path: Option<String>,
    pub syslog_target: Option<String>,
    pub worker_count: Option<u32>,
    pub flow_table_size: Option<u32>,
    pub stream_depth: Option<u32>,
}

/// What is to be changed of it.
#[derive(Clone, Debug)]
pub struct UpdateConfigRequest {
    pub mode: Option<String>,
    pub home_net: Option<Vec<String>>,
    pub external_net: Option<Vec<String>>,
    pub interfaces: Option<Vec<String>>,
    pub alert_retention_days: Option<u32>,
    pub eve_log_enabled: Option<bool>,
    pub eve_log_path: Option<String>,
    pub syslog_target: Option<String>,
    pub worker_count: Option<u32>,
    pub flow_table_size: Option<u32>,
    pub stream_depth: Option<u32>,
}

/// The mode of a name.
pub open spec fn mode_of(name: Seq<char>) -> Option<IdsMode> {
    if name == "ids"@ {
        Some(IdsMode::Ids)
    } else if name == "ips"@ {
        Some(IdsMode::Ips)
    } else if name == "disabled"@ {
        Some(IdsMode::Disabled)
    } else {
        None
    }
}

/// The mode that a request asks for: the present one where it asks for none.
pub open spec fn requested_mode(c: IdsConfig, r: UpdateConfigRequest) -> Option<IdsMode> {
    match r.mode {
        Some(name) => mode_of(name@),
        None => Some(c.mode),
    }
}

/// The new value where there is one, else the old.
pub open spec fn picked<T>(new: Option<T>, old: T) -> T {
    match new {
        Some(x) => x,
        None => old,
    }
}

/// The new value where there is one, else the old one, where there is one.
pub open spec fn either<T>(new: Option<T>, old: Option<T>) -> Option<T> {
    match new {
        Some(x) => Some(x),
        None => old,
    }
}

/// The configuration with what is to be changed.
pub open spec fn merged_config(c: IdsConfig, r: UpdateConfigRequest, mode: IdsMode) -> IdsConfig {
    IdsConfig {
        mode,
        home_net: picked(r.home_net, c.home_net),
        external_net: picked(r.external_net, c.external_net),
        interfaces: picked(r.interfaces, c.interfaces),
        alert_retention_days: picked(r.alert_retention_days, c.alert_retention_days),
        eve_log_enabled: picked(r.eve_log_enabled, c.eve_log_enabled),
        eve_log_path: either(r.eve_log_path, c.eve_log_path),
        syslog_target: either(r.syslog_target, c.syslog_target),
        worker_count: either(r.worker_count, c.worker_count),
        flow_table_size: either(r.flow_table_size, c.flow_table_size),
        stream_depth: either(r.stream_depth, c.stream_depth),
    }
}

fn pick<T>(new: Option<T>, old: T) -> (r: T)
    ensures
        r == picked(new, old),
{
    match new {
        Some(x) => x,
        None => old,
    }
}

fn first_of<T>(new: Option<T>, old: Option<T>) -> (r: Option<T>)
    ensures
        r == either(new, old),
{
    match new {
        Some(x) => Some(x),
        None => old,
    }
}

fn mode_named(name: &str) -> (r: Option<IdsMode>)
    ensures
        r == mode_of(name@),
{
    if same(name, "ids") {
        Some(IdsMode::Ids)
    } else if same(name, "ips") {
        Some(IdsMode::Ips)
    } else if same(name, "disabled") {
        Some(IdsMode::Disabled)
    } else {
        None
    }
}

/// The configuration that is handed to the service: the present one with what
/// is to be changed.
pub fn update_config(current: IdsConfig, req: UpdateConfigRequest) -> (r: Result<IdsConfig, Refusal>)
    ensures
        match requested_mode(current, req) {
            Some(mode) => r == Ok::<IdsConfig, Refusal>(merged_config(current, req, mode)),
            None => r matches Err(e) && e.status == Status::BadRequest && e.message@ == "invalid mode"@,
        },
{
    let mode = match &req.mode {
        Some(name) => match mode_named(name.as_str()) {
            Some(m) => m,
            None => {
                return Err(refuse(Status::BadRequest, "invalid mode".to_owned()));
            },
        },
        None => current.mode,
    };
    Ok(
        IdsConfig {
            mode,
            home_net: pick(req.home_net, current.home_net),
            external_net: pick(req.external_net, current.external_net),
            interfaces: pick(req.interfaces, current.interfaces),
            alert_retention_days: pick(req.alert_retention_days, current.alert_retention_days),
            eve_log_enabled: pick(req.eve_log_enabled, current.eve_log_enabled),
            eve_log_path: first_of(req.eve_log_path, current.eve_log_path),
            syslog_target: first_of(req.syslog_target, current.syslog_target),
            worker_count: first_of(req.worker_count, current.worker_count),
            flow_table_size: first_of(req.flow_table_size, current.flow_table_size),
            stream_depth: first_of(req.stream_depth, current.stream_depth),
        },
    )
}

/// A request that asks for nothing changes nothing.
pub proof fn empty_update_changes_nothing(c: IdsConfig, r: UpdateConfigRequest)
    requires
        r.mode is None,
        r.home_net is None,
        r.external_net is None,
        r.interfaces is None,
        r.alert_retention_days is None,
        r.eve_log_enabled is None,
        r.eve_log_path is None,
        r.syslog_target is None,
        r.worker_count is None,
        r.flow_table_size is None,
        r.stream_depth is None,
    ensures
        requested_mode(c, r) == Some(c.mode),
        merged_config(c, r, c.mode) == c,
{
}

// ---------------------------------------------------------------------------
// Alerts
// ---------------------------------------------------------------------------

/// Which alerts are wanted.
#[derive(Clone, Debug)]
pub struct AlertsQuery {
    pub severity: Option<u8>,
    pub src_ip: Option<String>,
    pub signature_id: Option<u32>,
    pub acknowledged: Option<bool>,
    pub classification: Option<String>,
    pub limit: Option<u32>,
    pub offset: Option<u32>,
}

/// How many alerts are read, and how many are passed over: fifty and none
/// unless the query says otherwise.
pub fn alerts_page(q: &AlertsQuery) -> (r: (u32, u32))
    ensures
        r == (picked(q.limit, 50), picked(q.offset, 0)),
{
    (pick(q.limit, 50), pick(q.offset, 0))
}

/// What is said of an alert that was classified.
pub fn classified_message(classification: &str) -> (r: String)
    ensures
        r@ == "alert classified as "@ + classification@,
{
    cat2("alert classified as ", classification)
}

/// What is said of alerts that were removed; `reclaimed` says whether the
/// space that they took was freed.
pub fn purge_message(rows: u64, reclaimed: bool) -> (r: String)
    ensures
        r@ == dec(rows as nat) + " alerts purged"@ + (if reclaimed {
            " and space reclaimed"@
        } else {
            " (space reclaim deferred: vacuum busy)"@
        }),
{
    let n = fmt_u64(rows);
    if reclaimed {
        cat3(n.as_str(), " alerts purged", " and space reclaimed")
    } else {
        cat3(n.as_str(), " alerts purged", " (space reclaim deferred: vacuum busy)")
    }
}

/// What the audit log says of it.
pub fn purge_note(rows: u64) -> (r: String)
    ensures
        r@ == "ids: purged all alerts ("@ + dec(rows as nat) + " rows)"@,
{
    let n = fmt_u64(rows);
    cat3("ids: purged all alerts (", n.as_str(), " rows)")
}

// ---------------------------------------------------------------------------
// Sets of rules
// ---------------------------------------------------------------------------

/// A set of rules that is to be made. The format carries whether it is known.
#[derive(Clone, Debug)]
pub struct CreateRulesetRequest {
    pub name: String,
    pub source_url: Option<String>,
    pub rule_format: Checked,
    pub enabled: Option<bool>,
    pub auto_update: Option<bool>,
    pub update_interval_hours: Option<u32>,
}

/// A set of rules. One that is new has no rules yet.
#[derive(Clone, Debug)]
pub struct IdsRuleset {
    pub id: String,
    pub name: String,
    pub source_url: Option<String>,
    pub rule_format: String,
    pub enabled: bool,
    pub auto_update: bool,
    pub update_interval_hours: u32,
    pub rule_count: u32,
}

/// A new set of rules, under an identifier that was just made: it is enabled
/// and brought up to date every day unless the request says otherwise.
pub fn create_ruleset(id: String, req: CreateRulesetRequest) -> (r: Result<IdsRuleset, Status>)
    ensures
        r == (if req.rule_format.valid {
            Ok(
                IdsRuleset {
                    id,
                    name: req.name,
                    source_url: req.source_url,
                    rule_format: req.rule_format.text,
                    enabled: picked(req.enabled, true),
                    auto_update: picked(req.auto_update, true),
                    update_interval_hours: picked(req.update_interval_hours, 24),
                    rule_count: 0,
                },
            )
        } else {
            Err(Status::BadRequest)
        }),
{
    if !req.rule_format.valid {
        return Err(Status::BadRequest);
    }
    Ok(
        IdsRuleset {
            id,
            name: req.name,
            source_url: req.source_url,
            rule_format: req.rule_format.text,
            enabled: pick(req.enabled, true),
            auto_update: pick(req.auto_update, true),
            update_interval_hours: pick(req.update_interval_hours, 24),
            rule_count: 0,
        },
    )
}

/// What is to be changed of a set of rules.
#[derive(Clone, Debug)]
pub struct UpdateRulesetRequest {
    pub name: Option<String>,
    pub source_url: Option<String>,
    pub rule_format: Option<Checked>,
    pub enabled: Option<bool>,
    pub auto_update: Option<bool>,
    pub update_interval_hours: Option<u32>,
}

/// The set with what is to be changed.
pub open spec fn merged_ruleset(s: IdsRuleset, r: UpdateRulesetRequest) -> IdsRuleset {
    IdsRuleset {
        id: s.id,
        name: picked(r.name, s.name),
        source_url: either(r.source_url, s.source_url),
        rule_format: match r.rule_format {
            Some(f) => f.text,
            None => s.rule_format,
        },
        enabled: picked(r.enabled, s.enabled),
        auto_update: picked(r.auto_update, s.auto_update),
        update_interval_hours: picked(r.update_interval_hours, s.update_interval_hours),
        rule_count: s.rule_count,
    }
}

/// The first set with that identifier.
pub open spec fn find_ruleset(v: Seq<IdsRuleset>, id: Seq<char>) -> Option<IdsRuleset>
    decreases v.len(),
{
    if v.len() == 0 {
        None
    } else if v[0].id@ == id {
        Some(v[0])
    } else {
        find_ruleset(v.skip(1), id)
    }
}

fn copy_ruleset(s: &IdsRuleset) -> (r: IdsRuleset)
    ensures
        r == *s,
{
    IdsRuleset {
        id: s.id.clone(),
        name: s.name.clone(),
        source_url: s.source_url.clone(),
        rule_format: s.rule_format.clone(),
        enabled: s.enabled,
        auto_update: s.auto_update,
        update_interval_hours: s.update_interval_hours,
        rule_count: s.rule_count,
    }
}

fn lookup_ruleset(v: &Vec<IdsRuleset>, id: &str) -> (r: Option<IdsRuleset>)
    ensures
        r == find_ruleset(v@, id@),
{
    let mut i: usize = 0;
    assert(v@.skip(0) =~= v@);
    while i < v.len()
        invariant
            i <= v@.len(),
            find_ruleset(v@, id@) == find_ruleset(v@.skip(i as int), id@),
        decreases v.len() - i,
    {
        assert(v@.skip(i as int).skip(1) =~= v@.skip(i + 1));
        assert(v@.skip(i as int)[0] == v@[i as int]);
        if same(v[i].id.as_str(), id) {
            return Some(copy_ruleset(&v[i]));
        }
        i = i + 1;
    }
    None
}

/// The set of rules as it is stored: what is no identifier, or no known
/// format, is a bad request, and a set that is not there is not found.
pub fn update_ruleset(id: &str, existing: &Vec<IdsRuleset>, req: UpdateRulesetRequest) -> (r: Result<IdsRuleset, Status>)
    ensures
        r == (match uuid_text(id@) {
            None => Err(Status::BadRequest),
            Some(key) => match find_ruleset(existing@, key) {
                None => Err(Status::NotFound),
                Some(s) => if req.rule_format is Some && !req.rule_format->0.valid {
                    Err(Status::BadRequest)
                } else {
                    Ok(merged_ruleset(s, req))
                },
            },
        }),
{
    let key = match require_uuid(id) {
        Ok(k) => k,
        Err(e) => {
            return Err(e);
        },
    };
    let s = match lookup_ruleset(existing, key.as_str()) {
        Some(s) => s,
        None => {
            return Err(Status::NotFound);
        },
    };
    let rule_format = match req.rule_format {
        Some(f) => {
            if !f.valid {
                return Err(Status::BadRequest);
            }
            f.text
        },
        None => s.rule_format,
    };
    Ok(
        IdsRuleset {
            id: s.id,
            name: pick(req.name, s.name),
            source_url: first_of(req.source_url, s.source_url),
            rule_format,
            enabled: pick(req.enabled, s.enabled),
            auto_update: pick(req.auto_update, s.auto_update),
            update_interval_hours: pick(req.update_interval_hours, s.update_interval_hours),
            rule_count: s.rule_count,
        },
    )
}

/// Whether the rules of a set are to be fetched first: it is enabled, has a
/// source, and has no rules yet.
pub fn needs_download(s: &IdsRuleset) -> (r: bool)
    ensures
        r == (s.enabled && s.rule_count == 0 && s.source_url is Some),
{
    s.enabled && s.rule_count == 0 && s.source_url.is_some()
}

/// The set as it is answered once its rules were fetched: as it is stored
/// then, where it can be read.
pub fn after_download(s: IdsRuleset, stored: Option<&Vec<IdsRuleset>>) -> (r: IdsRuleset)
    ensures
        r == (match stored {
            Some(v) => picked(find_ruleset(v@, s.id@), s),
            None => s,
        }),
{
    match stored {
        Some(v) => {
            let found = lookup_ruleset(v, s.id.as_str());
            pick(found, s)
        },
        None => s,
    }
}

// ---------------------------------------------------------------------------
// Rules
// ---------------------------------------------------------------------------

/// Which rules are wanted.
#[derive(Clone, Debug)]
pub struct RulesQuery {
    pub ruleset_id: Option<String>,
    pub enabled: Option<bool>,
    pub q: Option<String>,
    pub limit: Option<u32>,
    pub offset: Option<u32>,
}

/// How the rules are read.
#[derive(Clone, Debug)]
pub struct RulesPage {
    /// Of this set only.
    pub ruleset_id: Option<String>,
    pub enabled_only: bool,
    pub limit: u32,
    pub offset: u32,
}

/// How the rules of a query are read. What is no identifier stands for all
/// sets.
pub fn rules_page(q: &RulesQuery) -> (r: RulesPage)
    ensures
        crate::kv::option_view(r.ruleset_id) == (match q.ruleset_id {
            Some(s) => uuid_text(s@),
            None => None,
        }),
        r.enabled_only == picked(q.enabled, false),
        r.limit == picked(q.limit, 50),
        r.offset == picked(q.offset, 0),
{
    let ruleset_id = match &q.ruleset_id {
        Some(s) => match require_uuid(s.as_str()) {
            Ok(t) => Some(t),
            Err(_) => None,
        },
        None => None,
    };
    RulesPage {
        ruleset_id,
        enabled_only: pick(q.enabled, false),
        limit: pick(q.limit, 50),
        offset: pick(q.offset, 0),
    }
}

/// The moment that a text names in the form of RFC 3339, as `chrono` reads
/// it: seconds since the start of 1970 in UTC, and nanoseconds.
pub uninterp spec fn rfc3339(s: Seq<char>) -> Option<(i64, u32)>;

/// `chrono::DateTime::parse_from_rfc3339`: the moment, where the text names
/// one. It is a function of the text.
#[verifier::external_body]
fn parse_rfc3339(s: &str) -> (r: Option<(i64, u32)>)
    ensures
        r == rfc3339(s@),
{
    let parsed = chrono::DateTime::parse_from_rfc3339(s).ok()?;
    Some((parsed.timestamp(), parsed.timestamp_subsec_nanos()))
}

/// A moment: seconds since the start of 1970 in UTC, and nanoseconds.
#[derive(Clone, Copy, Debug, PartialEq, Eq, Structural)]
pub struct Moment {
    pub secs: i64,
    pub nanos: u32,
}

/// The moment that a text names.
pub open spec fn named_moment(s: Seq<char>) -> Option<Moment> {
    match rfc3339(s) {
        Some((secs, nanos)) => Some(Moment { secs, nanos }),
        None => None,
    }
}

fn read_moment(s: &str) -> (r: Option<Moment>)
    ensures
        r == named_moment(s@),
{
    match parse_rfc3339(s) {
        Some((secs, nanos)) => Some(Moment { secs, nanos }),
        None => None,
    }
}

/// A rule as its row holds it.
#[derive(Clone, Debug)]
pub struct RuleRow {
    pub id: String,
    pub ruleset_id: String,
    pub sid: Option<i64>,
    pub rule_text: String,
    pub msg: Option<String>,
    pub severity: i64,
    pub enabled: bool,
    /// The action, and whether it is a known one.
    pub action_override: Option<Checked>,
    pub hit_count: i64,
    pub last_hit: Option<String>,
    pub created_at: String,
}

/// A rule.
#[derive(Clone, Debug)]
pub struct IdsRule {
    pub id: String,
    pub ruleset_id: String,
    pub sid: Option<u32>,
    pub rule_text: String,
    pub msg: Option<String>,
    pub severity: u8,
    pub enabled: bool,
    pub action_override: Option<String>,
    pub hit_count: u64,
    pub last_hit: Option<Moment>,
    pub created_at: Moment,
}

/// The low 32 bits of an optional number.
pub open spec fn low_sid(v: Option<i64>) -> Option<u32> {
    match v {
        Some(n) => Some(n as u32),
        None => None,
    }
}

/// The action, where it is a known one.
pub open spec fn known_action(a: Option<Checked>) -> Option<String> {
    match a {
        Some(c) => if c.valid {
            Some(c.text)
        } else {
            None
        },
        None => None,
    }
}

/// `rule` is the rule of the row, with these moments.
pub open spec fn is_rule_of_row(rule: IdsRule, row: RuleRow, last_hit: Option<Moment>, created_at: Moment) -> bool {
    &&& uuid_text(row.id@) == Some(rule.id@)
    &&& uuid_text(row.ruleset_id@) == Some(rule.ruleset_id@)
    &&& rule.sid == low_sid(row.sid)
    &&& rule.rule_text == row.rule_text
    &&& rule.msg == row.msg
    &&& rule.severity == row.severity as u8
    &&& rule.enabled == row.enabled
    &&& rule.action_override == known_action(row.action_override)
    &&& rule.hit_count == row.hit_count as u64
    &&& rule.last_hit == last_hit
    &&& rule.created_at == created_at
}

/// The moment of the last hit.
pub open spec fn last_hit_of(row: RuleRow) -> Option<Moment> {
    match row.last_hit {
        Some(t) => named_moment(t@),
        None => None,
    }
}

/// The rule of a row, with the moments that it names: a row whose identifiers
/// are none is an error of the server.
pub fn rule_from_row(row: RuleRow, last_hit: Option<Moment>, created_at: Moment) -> (r: Result<IdsRule, Status>)
    ensures
        r is Ok <==> uuid_text(row.id@) is Some && uuid_text(row.ruleset_id@) is Some,
        r matches Ok(rule) ==> is_rule_of_row(rule, row, last_hit, created_at),
        r matches Err(e) ==> e == Status::Internal,
{
    let id = match require_uuid(row.id.as_str()) {
        Ok(t) => t,
        Err(_) => {
            return Err(Status::Internal);
        },
    };
    let ruleset_id = match require_uuid(row.ruleset_id.as_str()) {
        Ok(t) => t,
        Err(_) => {
            return Err(Status::Internal);
        },
    };
    let sid = match row.sid {
        Some(n) => Some(n as u32),
        None => None,
    };
    let action_override = match row.action_override {
        Some(c) => if c.valid {
            Some(c.text)
        } else {
            None
        },
        None => None,
    };
    Ok(
        IdsRule {
            id,
            ruleset_id,
            sid,
            rule_text: row.rule_text,
            msg: row.msg,
            severity: row.severity as u8,
            enabled: row.enabled,
            action_override,
            hit_count: row.hit_count as u64,
            last_hit,
            created_at,
        },
    )
}

/// The rule that was asked for: one that is not there is not found. A row
/// that does not say when it was made counts as made `now`.
pub fn get_rule(row: Option<RuleRow>, now: Moment) -> (r: Result<IdsRule, Status>)
    ensures
        match row {
            None => r == Err::<IdsRule, Status>(Status::NotFound),
            Some(w) => {
                &&& r is Ok <==> uuid_text(w.id@) is Some && uuid_text(w.ruleset_id@) is Some
                &&& r matches Ok(rule) ==> is_rule_of_row(rule, w, last_hit_of(w), picked(named_moment(w.created_at@), now))
                &&& r matches Err(e) ==> e == Status::Internal
            },
        },
{
    let w = match row {
        Some(w) => w,
        None => {
            return Err(Status::NotFound);
        },
    };
    let last_hit = match &w.last_hit {
        Some(t) => read_moment(t.as_str()),
        None => None,
    };
    let created_at = pick(read_moment(w.created_at.as_str()), now);
    rule_from_row(w, last_hit, created_at)
}

/// What is to be changed of a rule.
#[derive(Clone, Debug)]
pub struct UpdateRuleRequest {
    pub enabled: Option<bool>,
    pub action_override: Option<String>,
}

/// The changes of a rule: first whether it is enabled, then its action, where
/// an empty text takes the action back.
#[derive(Clone, Debug)]
pub struct RuleChange {
    pub id: String,
    pub enabled: Option<bool>,
    pub action: Option<Option<String>>,
}

/// The changes of a rule.
pub fn update_rule(id: &str, req: UpdateRuleRequest) -> (r: Result<RuleChange, Status>)
    ensures
        r is Ok <==> uuid_text(id@) is Some,
        r matches Ok(c) ==> {
            &&& uuid_text(id@) == Some(c.id@)
            &&& c.enabled == req.enabled
            &&& c.action == (match req.action_override {
                Some(a) => Some(
                    if a@.len() == 0 {
                        None
                    } else {
                        Some(a)
                    },
                ),
                None => None,
            })
        },
        r matches Err(e) ==> e == Status::BadRequest,
{
    let key = match require_uuid(id) {
        Ok(k) => k,
        Err(e) => {
            return Err(e);
        },
    };
    let action = match req.action_override {
        Some(a) => if a.as_str().is_empty() {
            Some(None)
        } else {
            Some(Some(a))
        },
        None => None,
    };
    Ok(RuleChange { id: key, enabled: req.enabled, action })
}

// ---------------------------------------------------------------------------
// Suppressions
// ---------------------------------------------------------------------------

/// A part of a long list.
#[derive(Clone, Copy, Debug)]
pub struct PageQuery {
    pub limit: Option<i64>,
    pub offset: Option<i64>,
}

/// How many suppressions are read: a thousand unless the query says
/// otherwise, and between one and five thousand whatever it says.
pub open spec fn page_limit(q: PageQuery) -> i64 {
    let n = picked(q.limit, 1000);
    if n < 1 {
        1
    } else if n > 5000 {
        5000
    } else {
        n
    }
}

/// How many suppressions are passed over.
pub open spec fn page_offset(q: PageQuery) -> i64 {
    let n = picked(q.offset, 0);
    if n < 0 {
        0
    } else {
        n
    }
}

/// How many suppressions are read, and how many are passed over.
pub fn suppressions_page(q: &PageQuery) -> (r: (i64, i64))
    ensures
        r == (page_limit(*q), page_offset(*q)),
{
    let limit: i64 = pick(q.limit, 1000);
    let offset: i64 = pick(q.offset, 0);
    (
        if limit < 1 {
            1
        } else if limit > 5000 {
            5000
        } else {
            limit
        },
        if offset < 0 {
            0
        } else {
            offset
        },
    )
}

/// A suppression as its row holds it.
#[derive(Clone, Debug)]
pub struct SuppressionRow {
    pub id: String,
    pub sid: i64,
    /// The kind, and whether it is a known one.
    pub suppress_type: Checked,
    pub ip_cidr: Option<String>,
    pub created_at: String,
}

/// A suppression.
#[derive(Clone, Debug)]
pub struct IdsSuppression {
    pub id: String,
    pub sid: u32,
    pub suppress_type: String,
    pub ip_cidr: Option<String>,
    pub created_at: Moment,
}

/// The value of an [`IdsSuppression`].
pub struct SuppressionView {
    pub id: Seq<char>,
    pub sid: u32,
    pub suppress_type: String,
    pub ip_cidr: Option<String>,
    pub created_at: Moment,
}

impl View for IdsSuppression {
    type V = SuppressionView;

    open spec fn view(&self) -> SuppressionView {
        SuppressionView {
            id: self.id@,
            sid: self.sid,
            suppress_type: self.suppress_type,
            ip_cidr: self.ip_cidr,
            created_at: self.created_at,
        }
    }
}

/// The suppression of a row with the moment `made`: there is none where the
/// identifier, the kind or the moment is not valid.
pub open spec fn suppression_of(w: SuppressionRow, made: Option<Moment>) -> Option<SuppressionView> {
    if uuid_text(w.id@) is Some && w.suppress_type.valid && made is Some {
        Some(
            SuppressionView {
                id: uuid_text(w.id@)->0,
                sid: w.sid as u32,
                suppress_type: w.suppress_type.text,
                ip_cidr: w.ip_cidr,
                created_at: made->0,
            },
        )
    } else {
        None
    }
}

/// The suppressions of the rows; a row that holds none is passed over.
pub open spec fn suppressions_of(v: Seq<SuppressionRow>) -> Seq<SuppressionView>
    decreases v.len(),
{
    if v.len() == 0 {
        Seq::<SuppressionView>::empty()
    } else {
        match suppression_of(v.last(), named_moment(v.last().created_at@)) {
            Some(s) => suppressions_of(v.drop_last()).push(s),
            None => suppressions_of(v.drop_last()),
        }
    }
}

/// The suppression of a row with the moment that it names.
pub fn suppression_from_row(w: &SuppressionRow, made: Option<Moment>) -> (r: Option<IdsSuppression>)
    ensures
        match r {
            Some(s) => suppression_of(*w, made) == Some(s@),
            None => suppression_of(*w, made) is None,
        },
{
    let id = match require_uuid(w.id.as_str()) {
        Ok(t) => t,
        Err(_) => {
            return None;
        },
    };
    if !w.suppress_type.valid {
        return None;
    }
    match made {
        Some(created_at) => Some(
            IdsSuppression {
                id,
                sid: w.sid as u32,
                suppress_type: w.suppress_type.text.clone(),
                ip_cidr: w.ip_cidr.clone(),
                created_at,
            },
        ),
        None => None,
    }
}

/// The suppressions of the rows.
pub fn list_suppressions(v: &Vec<SuppressionRow>) -> (r: Vec<IdsSuppression>)
    ensures
        r@.map_values(|s: IdsSuppression| s@) == suppressions_of(v@),
{
    let mut r: Vec<IdsSuppression> = Vec::new();
    let mut i: usize = 0;
    assert(r@.map_values(|s: IdsSuppression| s@) =~= suppressions_of(v@.take(0)));
    while i < v.len()
        invariant
            i <= v@.len(),
            r@.map_values(|s: IdsSuppression| s@) == suppressions_of(v@.take(i as int)),
        decreases v.len() - i,
    {
        assert(v@.take(i + 1).drop_last() =~= v@.take(i as int));
        let ghost before = r@;
        let made = read_moment(v[i].created_at.as_str());
        match suppression_from_row(&v[i], made) {
            Some(s) => {
                r.push(s);
                assert(r@.map_values(|s: IdsSuppression| s@) =~= before.map_values(|s: IdsSuppression| s@).push(s@));
            },
            None => {},
        }
        i = i + 1;
    }
    assert(v@.take(v@.len() as int) =~= v@);
    r
}

/// A suppression that is to be made.
#[derive(Clone, Debug)]
pub struct CreateSuppressionRequest {
    pub sid: u32,
    pub suppress_type: Checked,
    pub ip_cidr: Option<String>,
}

/// A new suppression, under an identifier that was just made: a kind that is
/// not known is a bad request.
pub fn create_suppression(id: String, now: Moment, req: CreateSuppressionRequest) -> (r: Result<IdsSuppression, Status>)
    ensures
        r == (if req.suppress_type.valid {
            Ok(
                IdsSuppression {
                    id,
                    sid: req.sid,
                    suppress_type: req.suppress_type.text,
                    ip_cidr: req.ip_cidr,
                    created_at: now,
                },
            )
        } else {
            Err(Status::BadRequest)
        }),
{
    if !req.suppress_type.valid {
        return Err(Status::BadRequest);
    }
    Ok(
        IdsSuppression {
            id,
            sid: req.sid,
            suppress_type: req.suppress_type.text,
            ip_cidr: req.ip_cidr,
            created_at: now,
        },
    )
}

// ---------------------------------------------------------------------------
// Figures
// ---------------------------------------------------------------------------

/// What the service counts.
#[derive(Clone, Debug)]
pub struct LiveStats {
    pub mode: String,
    pub rules_loaded: u32,
    pub running: bool,
    pub packets_inspected: u64,
    pub alerts_total: u64,
    pub flow_count: u64,
    pub flow_reassembly_bytes: u64,
    pub uptime_secs: u64,
}

/// The figures of the detection.
#[derive(Clone, Debug)]
pub struct IdsStatsResponse {
    pub mode: String,
    pub severity_counts: Vec<(String, i64)>,
    pub top_signatures: Vec<(String, i64)>,
    pub top_sources: Vec<(String, i64)>,
    pub loaded_rules: u32,
    pub enabled_rulesets: u32,
    pub total_rulesets: u32,
    pub running: bool,
    pub packets_inspected: u64,
    pub alerts_total: u64,
    pub flow_count: u64,
    pub flow_reassembly_bytes: u64,
    pub uptime_secs: u64,
}

/// The name of a severity.
pub open spec fn severity_name(n: i64) -> Seq<char> {
    if n == 1 {
        "critical"@
    } else if n == 2 {
        "high"@
    } else if n == 3 {
        "medium"@
    } else {
        "info"@
    }
}

/// The name of a severity.
pub fn severity_label(n: i64) -> (r: &'static str)
    ensures
        r@ == severity_name(n),
{
    if n == 1 {
        "critical"
    } else if n == 2 {
        "high"
    } else if n == 3 {
        "medium"
    } else {
        "info"
    }
}

/// `r` gives the counts `v` under the names of their severities.
pub open spec fn are_named_counts(r: Seq<(String, i64)>, v: Seq<(i64, i64)>) -> bool {
    r.len() == v.len() && forall|i: int|
        0 <= i < v.len() ==> (#[trigger] r[i]).0@ == severity_name(v[i].0) && r[i].1 == v[i].1
}

/// How many of the sets are enabled.
pub open spec fn enabled_count(v: Seq<IdsRuleset>) -> nat
    decreases v.len(),
{
    if v.len() == 0 {
        0
    } else if v.last().enabled {
        enabled_count(v.drop_last()) + 1
    } else {
        enabled_count(v.drop_last())
    }
}

fn count_enabled(v: &Vec<IdsRuleset>) -> (n: usize)
    ensures
        n == enabled_count(v@),
        n <= v@.len(),
{
    let mut n: usize = 0;
    let mut i: usize = 0;
    while i < v.len()
        invariant
            i <= v@.len(),
            n <= i,
            n == enabled_count(v@.take(i as int)),
        decreases v.len() - i,
    {
        assert(v@.take(i + 1).drop_last() =~= v@.take(i as int));
        if v[i].enabled {
            n = n + 1;
        }
        i = i + 1;
    }
    assert(v@.take(v@.len() as int) =~= v@);
    n
}

fn name_counts(v: &Vec<(i64, i64)>) -> (r: Vec<(String, i64)>)
    ensures
        are_named_counts(r@, v@),
{
    let mut r: Vec<(String, i64)> = Vec::new();
    let mut i: usize = 0;
    while i < v.len()
        invariant
            i <= v@.len(),
            r@.len() == i,
            forall|k: int| 0 <= k < i ==> (#[trigger] r@[k]).0@ == severity_name(v@[k].0) && r@[k].1 == v@[k].1,
        decreases v.len() - i,
    {
        let name = severity_label(v[i].0);
        r.push((name.to_owned(), v[i].1));
        i = i + 1;
    }
    r
}

/// The figures of the detection, out of what the service counts, what the
/// alerts add up to, and the sets of rules.
pub fn get_stats(
    stats: LiveStats,
    counts: &Vec<(i64, i64)>,
    top_signatures: Vec<(String, i64)>,
    top_sources: Vec<(String, i64)>,
    rulesets: &Vec<IdsRuleset>,
) -> (r: IdsStatsResponse)
    requires
        rulesets@.len() <= u32::MAX,
    ensures
        are_named_counts(r.severity_counts@, counts@),
        r.enabled_rulesets == enabled_count(rulesets@),
        r.total_rulesets == rulesets@.len(),
        r == (IdsStatsResponse {
            mode: stats.mode,
            severity_counts: r.severity_counts,
            top_signatures,
            top_sources,
            loaded_rules: stats.rules_loaded,
            enabled_rulesets: r.enabled_rulesets,
            total_rulesets: r.total_rulesets,
            running: stats.running,
            packets_inspected: stats.packets_inspected,
            alerts_total: stats.alerts_total,
            flow_count: stats.flow_count,
            flow_reassembly_bytes: stats.flow_reassembly_bytes,
            uptime_secs: stats.uptime_secs,
        }),
{
    let enabled = count_enabled(rulesets);
    IdsStatsResponse {
        mode: stats.mode,
        severity_counts: name_counts(counts),
        top_signatures,
        top_sources,
        loaded_rules: stats.rules_loaded,
        enabled_rulesets: enabled as u32,
        total_rulesets: rulesets.len() as u32,
        running: stats.running,
        packets_inspected: stats.packets_inspected,
        alerts_total: stats.alerts_total,
        flow_count: stats.flow_count,
        flow_reassembly_bytes: stats.flow_reassembly_bytes,
        uptime_secs: stats.uptime_secs,
    }
}

/// What is answered once a set of rules was to be deleted.
pub fn delete_ruleset(id: &str, deleted: bool) -> (r: Result<MessageResponse, Status>)
    ensures
        said(r) == change_answer(id@, deleted, Status::Internal, "ruleset deleted"@),
{
    answer_change(id, deleted, Status::Internal, "ruleset deleted".to_owned())
}

/// What is answered once an alert was to be acknowledged.
pub fn acknowledge_alert(id: &str, done: bool) -> (r: Result<MessageResponse, Status>)
    ensures
        said(r) == change_answer(id@, done, Status::Internal, "alert acknowledged"@),
{
    answer_change(id, done, Status::Internal, "alert acknowledged".to_owned())
}

/// What is answered once an alert was to be classified.
pub fn classify_alert(id: &str, classification: &str, done: bool) -> (r: Result<MessageResponse, Status>)
    ensures
        said(r) == change_answer(id@, done, Status::Internal, "alert classified as "@ + classification@),
{
    answer_change(id, done, Status::Internal, classified_message(classification))
}

/// The alert that was asked for: what is no identifier is a bad request, one
/// that is not there is not found. `found` is nothing where the alerts could
/// not be read.
pub fn get_alert<T>(id: &str, found: Option<Option<T>>) -> (r: Result<T, Status>)
    ensures
        r == (if uuid_text(id@) is None {
            Err::<T, Status>(Status::BadRequest)
        } else {
            match found {
                None => Err(Status::Internal),
                Some(None) => Err(Status::NotFound),
                Some(Some(a)) => Ok(a),
            }
        }),
{
    match require_uuid(id) {
        Err(e) => Err(e),
        Ok(_) => match found {
            None => Err(Status::Internal),
            Some(None) => Err(Status::NotFound),
            Some(Some(a)) => Ok(a),
        },
    }
}

// ---------------------------------------------------------------------------
// Laws
// ---------------------------------------------------------------------------

/// A service that cannot be reached or does not answer is unavailable, what it refuses is a bad
/// request, and any other failure is the server's own.
pub proof fn failures_have_their_answers(f: IdsFailure)
    ensures
        failure_status(f) == Status::Unavailable <==> f is Unavailable || f is Timeout,
        f is Server ==> failure_status(f) == Status::BadRequest,
        f is Other ==> failure_status(f) == Status::Internal,
        f is Unavailable || f is Timeout ==> failure_text(f) == "ids service unavailable"@,
        f is Server ==> failure_text(f) == "ids server error"@,
        f is Other ==> failure_text(f) == "ids client error"@,
{
}

/// Each mode has its own name, and a name of none is refused; without a name the mode stays.
pub proof fn modes_have_their_names(name: Seq<char>, c: IdsConfig, r: UpdateConfigRequest)
    ensures
        mode_of(seq!['i', 'd', 's']) == Some(IdsMode::Ids),
        mode_of(seq!['i', 'p', 's']) == Some(IdsMode::Ips),
        mode_of(seq!['d', 'i', 's', 'a', 'b', 'l', 'e', 'd']) == Some(IdsMode::Disabled),
        name != "ids"@ && name != "ips"@ && name != "disabled"@ ==> mode_of(name) is None,
        r.mode is None ==> requested_mode(c, r) == Some(c.mode),
        r.mode matches Some(n) ==> requested_mode(c, r) == mode_of(n@),
{
    reveal_strlit("ids");
    reveal_strlit("ips");
    reveal_strlit("disabled");
    assert("ids"@ =~= seq!['i', 'd', 's']);
    assert("ips"@ =~= seq!['i', 'p', 's']);
    assert("disabled"@ =~= seq!['d', 'i', 's', 'a', 'b', 'l', 'e', 'd']);
    assert(seq!['i', 'p', 's'][1] == 'p' && seq!['i', 'd', 's'][1] == 'd');
    assert(seq!['d', 'i', 's', 'a', 'b', 'l', 'e', 'd'].len() == 8);
}

/// Each setting that is given is taken over into its own place, and every other stays.
pub proof fn settings_are_taken_over(c: IdsConfig, r: UpdateConfigRequest, mode: IdsMode)
    ensures
        merged_config(c, r, mode).mode == mode,
        r.home_net matches Some(x) ==> merged_config(c, r, mode).home_net == x,
        r.home_net is None ==> merged_config(c, r, mode).home_net == c.home_net,
        r.external_net matches Some(x) ==> merged_config(c, r, mode).external_net == x,
        r.external_net is None ==> merged_config(c, r, mode).external_net == c.external_net,
        r.interfaces matches Some(x) ==> merged_config(c, r, mode).interfaces == x,
        r.interfaces is None ==> merged_config(c, r, mode).interfaces == c.interfaces,
        r.alert_retention_days matches Some(x) ==> merged_config(c, r, mode).alert_retention_days == x,
        r.alert_retention_days is None ==> merged_config(c, r, mode).alert_retention_days == c.alert_retention_days,
        r.eve_log_enabled matches Some(x) ==> merged_config(c, r, mode).eve_log_enabled == x,
        r.eve_log_enabled is None ==> merged_config(c, r, mode).eve_log_enabled == c.eve_log_enabled,
        r.eve_log_path is Some ==> merged_config(c, r, mode).eve_log_path == r.eve_log_path,
        r.eve_log_path is None ==> merged_config(c, r, mode).eve_log_path == c.eve_log_path,
        r.syslog_target is Some ==> merged_config(c, r, mode).syslog_target == r.syslog_target,
        r.syslog_target is None ==> merged_config(c, r, mode).syslog_target == c.syslog_target,
        r.worker_count is Some ==> merged_config(c, r, mode).worker_count == r.worker_count,
        r.worker_count is None ==> merged_config(c, r, mode).worker_count == c.worker_count,
        r.flow_table_size is Some ==> merged_config(c, r, mode).flow_table_size == r.flow_table_size,
        r.flow_table_size is None ==> merged_config(c, r, mode).flow_table_size == c.flow_table_size,
        r.stream_depth is Some ==> merged_config(c, r, mode).stream_depth == r.stream_depth,
        r.stream_depth is None ==> merged_config(c, r, mode).stream_depth == c.stream_depth,
{
}

/// Each value that is given is taken over into its own place, and every other stays; a change
/// touches neither the identifier nor the count of rules.
pub proof fn changes_of_a_ruleset_are_taken_over(s: IdsRuleset, r: UpdateRulesetRequest)
    ensures
        merged_ruleset(s, r).id == s.id,
        merged_ruleset(s, r).rule_count == s.rule_count,
        r.name matches Some(x) ==> merged_ruleset(s, r).name == x,
        r.name is None ==> merged_ruleset(s, r).name == s.name,
        r.enabled matches Some(x) ==> merged_ruleset(s, r).enabled == x,
        r.enabled is None ==> merged_ruleset(s, r).enabled == s.enabled,
        r.auto_update matches Some(x) ==> merged_ruleset(s, r).auto_update == x,
        r.auto_update is None ==> merged_ruleset(s, r).auto_update == s.auto_update,
        r.update_interval_hours matches Some(x) ==> merged_ruleset(s, r).update_interval_hours == x,
        r.update_interval_hours is None ==> merged_ruleset(s, r).update_interval_hours == s.update_interval_hours,
        r.source_url is Some ==> merged_ruleset(s, r).source_url == r.source_url,
        r.source_url is None ==> merged_ruleset(s, r).source_url == s.source_url,
        r.rule_format matches Some(x) ==> merged_ruleset(s, r).rule_format == x.text,
        r.rule_format is None ==> merged_ruleset(s, r).rule_format == s.rule_format,
{
}

/// What is found is a set of the list with that identifier, the first of them, and nothing is
/// found only where there is none.
pub proof fn rulesets_are_found_by_identifier(v: Seq<IdsRuleset>, id: Seq<char>, i: int)
    ensures
        find_ruleset(v, id) matches Some(s) ==> s.id@ == id && v.contains(s),
        0 <= i < v.len() && v[i].id@ == id && (forall|k: int| 0 <= k < i ==> (#[trigger] v[k]).id@ != id)
            ==> find_ruleset(v, id) == Some(v[i]),
        0 <= i < v.len() && v[i].id@ == id ==> find_ruleset(v, id) is Some,
    decreases v.len(),
{
    if v.len() > 0 {
        if v[0].id@ == id {
            assert(v.contains(v[0]));
        } else {
            rulesets_are_found_by_identifier(v.skip(1), id, i - 1);
            if find_ruleset(v, id) is Some {
                let s = find_ruleset(v, id)->0;
                let k = choose|k: int| 0 <= k < v.skip(1).len() && v.skip(1)[k] == s;
                assert(v[k + 1] == s);
            }
            if 0 < i < v.len() {
                assert(v.skip(1)[i - 1] == v[i]);
                if forall|k: int| 0 <= k < i ==> (#[trigger] v[k]).id@ != id {
                    assert forall|k: int| 0 <= k < i - 1 implies (#[trigger] v.skip(1)[k]).id@ != id by {
                        assert(v.skip(1)[k] == v[k + 1]);
                    }
                }
            }
        }
    }
}

/// A rule holds what its row does, each value in its own place; an action that is not a known
/// one is none.
pub proof fn rule_goes_by_its_row(rule: IdsRule, row: RuleRow, last_hit: Option<Moment>, created_at: Moment)
    requires
        is_rule_of_row(rule, row, last_hit, created_at),
    ensures
        uuid_text(row.id@) == Some(rule.id@),
        uuid_text(row.ruleset_id@) == Some(rule.ruleset_id@),
        row.sid is None ==> rule.sid is None,
        row.sid matches Some(n) ==> 0 <= n <= u32::MAX ==> rule.sid is Some && rule.sid->0 == n,
        rule.rule_text == row.rule_text,
        rule.msg == row.msg,
        0 <= row.severity <= 255 ==> rule.severity == row.severity,
        rule.enabled == row.enabled,
        row.action_override is None ==> rule.action_override is None,
        row.action_override matches Some(c) ==> !c.valid ==> rule.action_override is None,
        row.action_override matches Some(c) ==> c.valid ==> rule.action_override == Some(c.text),
        row.hit_count >= 0 ==> rule.hit_count == row.hit_count,
        rule.last_hit == last_hit,
        rule.created_at == created_at,
{
}

/// The moment that a text names is the one that is read, whole seconds and the rest; a rule
/// that was never hit, or at no moment that can be read, has none.
pub proof fn moments_are_named(s: Seq<char>, row: RuleRow)
    ensures
        rfc3339(s) is None ==> named_moment(s) is None,
        rfc3339(s) matches Some(p) ==> named_moment(s) is Some && named_moment(s)->0.secs == p.0
            && named_moment(s)->0.nanos == p.1,
        row.last_hit is None ==> last_hit_of(row) is None,
        row.last_hit matches Some(t) ==> last_hit_of(row) == named_moment(t@),
{
}

/// A page has between 1 and 5000 entries, what was asked for within that and 1000 where nothing
/// was, and it starts no earlier than the first.
pub proof fn pages_are_bounded(q: PageQuery)
    ensures
        1 <= page_limit(q) <= 5000,
        q.limit is None ==> page_limit(q) == 1000,
        q.limit matches Some(n) ==> 1 <= n <= 5000 ==> page_limit(q) == n,
        q.limit matches Some(n) ==> n < 1 ==> page_limit(q) == 1,
        q.limit matches Some(n) ==> n > 5000 ==> page_limit(q) == 5000,
        page_offset(q) >= 0,
        q.offset is None ==> page_offset(q) == 0,
        q.offset matches Some(n) ==> n >= 0 ==> page_offset(q) == n,
        q.offset matches Some(n) ==> n < 0 ==> page_offset(q) == 0,
{
}

/// The suppressions of rows are read row by row and in order.
pub proof fn suppressions_are_read_in_order(a: Seq<SuppressionRow>, b: Seq<SuppressionRow>)
    ensures
        suppressions_of(Seq::<SuppressionRow>::empty()) == Seq::<SuppressionView>::empty(),
        suppressions_of(a + b) == suppressions_of(a) + suppressions_of(b),
    decreases b.len(),
{
    if b.len() == 0 {
        assert(a + b =~= a);
        assert(suppressions_of(a) + suppressions_of(b) =~= suppressions_of(a));
    } else {
        assert((a + b).drop_last() =~= a + b.drop_last());
        suppressions_are_read_in_order(a, b.drop_last());
        assert(suppressions_of(a + b) =~= suppressions_of(a) + suppressions_of(b));
    }
}

/// A row gives a suppression where it has an identifier, a known kind and a moment, and the
/// suppression holds each of its values in its own place; any other row gives none.
pub proof fn suppression_goes_by_its_row(w: SuppressionRow)
    ensures
        uuid_text(w.id@) is None || !w.suppress_type.valid || named_moment(w.created_at@) is None
            ==> suppressions_of(Seq::<SuppressionRow>::empty().push(w)).len() == 0,
        uuid_text(w.id@) is Some && w.suppress_type.valid && named_moment(w.created_at@) is Some
            ==> ({ let l = suppressions_of(Seq::<SuppressionRow>::empty().push(w)); l.len() == 1
            && Some(l[0].id) == uuid_text(w.id@) && (0 <= w.sid <= u32::MAX ==> l[0].sid == w.sid)
            && l[0].suppress_type == w.suppress_type.text && l[0].ip_cidr == w.ip_cidr
            && Some(l[0].created_at) == named_moment(w.created_at@) }),
{
    reveal_with_fuel(suppressions_of, 2);
    assert(Seq::<SuppressionRow>::empty().push(w).drop_last() =~= Seq::<SuppressionRow>::empty());
}

/// One is critical, two is high, three is medium, and anything else is for information; the
/// counts keep their order.
pub proof fn severities_have_their_names(n: i64, r: Seq<(String, i64)>, v: Seq<(i64, i64)>, i: int)
    ensures
        severity_name(1) == "critical"@,
        severity_name(2) == "high"@,
        severity_name(3) == "medium"@,
        n < 1 || n > 3 ==> severity_name(n) == "info"@,
        are_named_counts(r, v) ==> r.len() == v.len(),
        are_named_counts(r, v) && 0 <= i < v.len() ==> r[i].1 == v[i].1 && r[i].0@ == severity_name(v[i].0),
{
}

/// The enabled sets of two lists together are those of either.
pub proof fn enabled_sets_are_counted(a: Seq<IdsRuleset>, b: Seq<IdsRuleset>)
    ensures
        enabled_count(Seq::<IdsRuleset>::empty()) == 0,
        enabled_count(a + b) == enabled_count(a) + enabled_count(b),
    decreases b.len(),
{
    if b.len() == 0 {
        assert(a + b =~= a);
    } else {
        assert((a + b).drop_last() =~= a + b.drop_last());
        enabled_sets_are_counted(a, b.drop_last());
    }
}

/// A set counts where it is enabled.
pub proof fn enabled_set_counts_once(s: IdsRuleset)
    ensures
        enabled_count(Seq::<IdsRuleset>::empty().push(s)) == (if s.enabled { 1nat } else { 0nat }),
{
    reveal_with_fuel(enabled_count, 2);
    assert(Seq::<IdsRuleset>::empty().push(s).drop_last() =~= Seq::<IdsRuleset>::empty());
}

/// A suppression stands in the view, each part in its own place.
pub proof fn suppressions_are_viewed_in_place(s: IdsSuppression)
    ensures
        s@.id == s.id@,
        s@.sid == s.sid,
        s@.suppress_type == s.suppress_type,
        s@.ip_cidr == s.ip_cidr,
        s@.created_at == s.created_at,
{
}

/// A new set of rules holds what was asked for, each value in its own place, and has no rules
/// yet; it is enabled and brought up to date every day unless the request says otherwise. So
/// does a new suppression. What is of no known kind is a bad request.
pub proof fn new_sets_and_suppressions_go_by_their_request(id: String, q: CreateRulesetRequest, r: Result<IdsRuleset,
    Status>, now: Moment, p: CreateSuppressionRequest, s: Result<IdsSuppression, Status>)
    ensures
        call_ensures(create_ruleset, (id, q), r) && !q.rule_format.valid
            ==> r == Err::<IdsRuleset, Status>(Status::BadRequest),
        call_ensures(create_ruleset, (id, q), r) && q.rule_format.valid ==> r is Ok && r->Ok_0.id == id
            && r->Ok_0.name == q.name && r->Ok_0.source_url == q.source_url
            && r->Ok_0.rule_format == q.rule_format.text && r->Ok_0.rule_count == 0,
        call_ensures(create_ruleset, (id, q), r) && q.rule_format.valid ==> (r->Ok_0.enabled
            <==> q.enabled != Some(false)) && (r->Ok_0.auto_update <==> q.auto_update != Some(false))
            && (q.update_interval_hours is None ==> r->Ok_0.update_interval_hours == 24)
            && (q.update_interval_hours matches Some(n) ==> r->Ok_0.update_interval_hours == n),
        call_ensures(create_suppression, (id, now, p), s) && !p.suppress_type.valid
            ==> s == Err::<IdsSuppression, Status>(Status::BadRequest),
        call_ensures(create_suppression, (id, now, p), s) && p.suppress_type.valid ==> s is Ok && s->Ok_0.id == id
            && s->Ok_0.sid == p.sid && s->Ok_0.suppress_type == p.suppress_type.text && s->Ok_0.ip_cidr == p.ip_cidr
            && s->Ok_0.created_at == now,
{
}

/// A rule is switched as asked; an action that is given is set, and an empty one is taken away.
pub proof fn changes_of_a_rule_are_taken_over(id: &str, q: UpdateRuleRequest, r: Result<RuleChange, Status>)
    requires
        call_ensures(update_rule, (id, q), r),
    ensures
        uuid_text(id@) is None ==> r == Err::<RuleChange, Status>(Status::BadRequest),
        r matches Ok(c) ==> uuid_text(id@) == Some(c.id@) && c.enabled == q.enabled,
        r matches Ok(c) ==> (q.action_override is None ==> c.action is None),
        r matches Ok(c) ==> (q.action_override matches Some(a) ==> a@.len() > 0 ==> c.action == Some(Some(a))),
        r matches Ok(c) ==> (q.action_override matches Some(a) ==> a@.len() == 0 ==> c.action == Some(None::<String>)),
        uuid_text(id@) is Some ==> r is Ok,
{
}

proof fn lemma_enabled_of_all(v: Seq<IdsRuleset>)
    ensures
        enabled_count(v) <= v.len(),
    decreases v.len(),
{
    if v.len() > 0 {
        lemma_enabled_of_all(v.drop_last());
    }
}

/// The statistics are what the engine counts, each number in its own place.
pub proof fn statistics_are_those_of_the_engine(stats: LiveStats, counts: &Vec<(i64, i64)>,
    top_signatures: Vec<(String, i64)>, top_sources: Vec<(String, i64)>, rulesets: &Vec<IdsRuleset>,
    r: IdsStatsResponse)
    requires
        call_ensures(get_stats, (stats, counts, top_signatures, top_sources, rulesets), r),
    ensures
        r.mode == stats.mode,
        r.top_signatures == top_signatures,
        r.top_sources == top_sources,
        r.loaded_rules == stats.rules_loaded,
        r.running == stats.running,
        r.packets_inspected == stats.packets_inspected,
        r.alerts_total == stats.alerts_total,
        r.flow_count == stats.flow_count,
        r.flow_reassembly_bytes == stats.flow_reassembly_bytes,
        r.uptime_secs == stats.uptime_secs,
        r.total_rulesets == rulesets@.len(),
        r.enabled_rulesets <= r.total_rulesets,
        r.severity_counts@.len() == counts@.len(),
{
    lemma_enabled_of_all(rulesets@);
}

/// A set is changed where its identifier is one and some set has it, and where a format that is
/// given is a known one.
pub proof fn changed_sets_are_found_first(id: &str, existing: &Vec<IdsRuleset>, q: UpdateRulesetRequest,
    r: Result<IdsRuleset, Status>, i: int)
    requires
        call_ensures(update_ruleset, (id, existing, q), r),
    ensures
        uuid_text(id@) is None ==> r == Err::<IdsRuleset, Status>(Status::BadRequest),
        uuid_text(id@) is Some && (forall|k: int| 0 <= k < existing@.len()
            ==> (#[trigger] existing@[k]).id@ != uuid_text(id@)->0)
            ==> r == Err::<IdsRuleset, Status>(Status::NotFound),
        r matches Ok(s) ==> uuid_text(id@) == Some(s.id@) && (q.rule_format matches Some(f) ==> f.valid),
        uuid_text(id@) is Some && 0 <= i < existing@.len() && existing@[i].id@ == uuid_text(id@)->0
            && q.rule_format is None ==> r is Ok,
{
    if uuid_text(id@) is Some {
        let key = uuid_text(id@)->0;
        rulesets_are_found_by_identifier(existing@, key, i);
        if find_ruleset(existing@, key) is Some {
            let s = find_ruleset(existing@, key)->0;
            let k = choose|k: int| 0 <= k < existing@.len() && existing@[k] == s;
            assert(existing@[k].id@ == key);
        }
    }
}

/// What was done with an alert or a set is answered by its own words. A set is downloaded where
/// it is enabled, has a source and has no rules yet.
pub proof fn alerts_and_sets_are_answered(id: &str, word: &str, n: u64, r: Result<MessageResponse, Status>, t: String,
    s: &IdsRuleset, b: bool)
    ensures
        call_ensures(delete_ruleset, (id, true), r) && uuid_text(id@) is Some ==> r is Ok
            && r->Ok_0.message@ == "ruleset deleted"@,
        call_ensures(acknowledge_alert, (id, true), r) && uuid_text(id@) is Some ==> r is Ok
            && r->Ok_0.message@ == "alert acknowledged"@,
        call_ensures(classify_alert, (id, word, true), r) && uuid_text(id@) is Some ==> r is Ok
            && r->Ok_0.message@ == "alert classified as "@ + word@,
        (call_ensures(delete_ruleset, (id, false), r) || call_ensures(acknowledge_alert, (id, false), r)
            || call_ensures(classify_alert, (id, word, false), r)) && uuid_text(id@) is Some
            ==> r == Err::<MessageResponse, Status>(Status::Internal),
        call_ensures(purge_message, (n, true), t) ==> t@ == dec(n as nat) + " alerts purged"@ + " and space reclaimed"@,
        call_ensures(purge_message, (n, false), t)
            ==> t@ == dec(n as nat) + " alerts purged"@ + " (space reclaim deferred: vacuum busy)"@,
        call_ensures(purge_note, (n,), t) ==> t@ == "ids: purged all alerts ("@ + dec(n as nat) + " rows)"@,
        call_ensures(needs_download, (s,), b) ==> (b <==> s.enabled && s.rule_count == 0 && s.source_url is Some),
{
}

/// New settings are taken over where the mode that they name is one, and the mode is then that
/// one; otherwise they are a bad request.
pub proof fn modes_are_checked_first(c: IdsConfig, q: UpdateConfigRequest, r: Result<IdsConfig, Refusal>)
    requires
        call_ensures(update_config, (c, q), r),
    ensures
        q.mode is None ==> r is Ok && r->Ok_0.mode == c.mode,
        q.mode matches Some(n) ==> (mode_of(n@) matches Some(m) ==> r is Ok && r->Ok_0.mode == m),
        q.mode matches Some(n) ==> mode_of(n@) is None ==> r is Err && r->Err_0.status == Status::BadRequest
            && r->Err_0.message@ == "invalid mode"@,
{
}

} // verus!
