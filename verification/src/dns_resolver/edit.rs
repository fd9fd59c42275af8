//! Adding and replacing the operators' records.

use vstd::prelude::*;

use crate::dns_resolver::config::ResolverConfig;
use crate::dns_resolver::dns64::{dns64_prefix_ok, has_length_96, validate_dns64_prefix};
use crate::dns_resolver::names::{
    is_acl_action, is_domain, is_network, is_record_value, validate_acl_action, validate_cidr_network,
    validate_dns_value, validate_domain,
};
use crate::dns_resolver::records::{
    AccessListEntry, CreateAccessListEntry, CreateDomainOverride, CreateHostOverride, DomainOverride, HostOverride,
};
use crate::identifiers::said;
use crate::kv::{bool_text, put_flag, put_list, rows, KeyValue};
use crate::net::{ip_ok, ipv4, is_ip};
use crate::status::{require_row, MessageResponse, Refusal, Status};
use crate::text::{join, same, trim, trimmed, views};

verus! {

/// The record type of a request that states none.
pub open spec fn requested_type(req: CreateHostOverride) -> Seq<char> {
    match req.record_type {
        Some(t) => t@,
        None => "A"@,
    }
}

/// A request for a host that is accepted.
pub open spec fn host_request_ok(req: CreateHostOverride) -> bool {
    is_domain(req.hostname@) && is_domain(req.domain@) && is_record_value(requested_type(req), req.value@)
}

/// `h` is the host that `req` asks for.
pub open spec fn is_requested_host(h: HostOverride, req: CreateHostOverride, id: String, now: String) -> bool {
    &&& h.id == id
    &&& h.hostname == req.hostname
    &&& h.domain == req.domain
    &&& h.record_type@ == requested_type(req)
    &&& h.value == req.value
    &&& h.mx_priority == req.mx_priority
    &&& h.description == req.description
    &&& h.enabled == (match req.enabled {
        Some(e) => e,
        None => true,
    })
    &&& h.created_at == now
}

/// The host that a request adds, under a fresh `id`.
pub fn create_host(req: CreateHostOverride, id: String, now: String) -> (r: Result<HostOverride, Status>)
    ensures
        r is Ok <==> host_request_ok(req),
        r matches Ok(h) ==> is_requested_host(h, req, id, now),
        r matches Err(s) ==> s == Status::BadRequest,
{
    if !validate_domain(req.hostname.as_str()) || !validate_domain(req.domain.as_str()) {
        return Err(Status::BadRequest);
    }
    let record_type = match req.record_type {
        Some(t) => t,
        None => "A".to_owned(),
    };
    match validate_dns_value(record_type.as_str(), req.value.as_str()) {
        Ok(_) => {},
        Err(s) => {
            return Err(s);
        },
    }
    let enabled = match req.enabled {
        Some(e) => e,
        None => true,
    };
    Ok(
        HostOverride {
            id,
            hostname: req.hostname,
            domain: req.domain,
            record_type,
            value: req.value,
            mx_priority: req.mx_priority,
            description: req.description,
            enabled,
            created_at: now,
        },
    )
}

/// The host that a request puts in place of the one under `id`.
pub fn update_host(id: String, req: CreateHostOverride, now: String) -> (r: Result<HostOverride, Status>)
    ensures
        r is Ok <==> host_request_ok(req),
        r matches Ok(h) ==> is_requested_host(h, req, id, now),
        r matches Err(s) ==> s == Status::BadRequest,
{
    create_host(req, id, now)
}

/// `d` is the domain override that `req` asks for.
pub open spec fn is_requested_domain(d: DomainOverride, req: CreateDomainOverride, id: String, now: String) -> bool {
    &&& d.id == id
    &&& d.domain == req.domain
    &&& d.server == req.server
    &&& d.description == req.description
    &&& d.enabled == (match req.enabled {
        Some(e) => e,
        None => true,
    })
    &&& d.created_at == now
}

/// The domain override that a request puts in place of the one under `id`.
pub fn update_domain(id: String, req: CreateDomainOverride, now: String) -> (d: DomainOverride)
    ensures
        is_requested_domain(d, req, id, now),
{
    let enabled = match req.enabled {
        Some(e) => e,
        None => true,
    };
    DomainOverride {
        id,
        domain: req.domain,
        server: req.server,
        description: req.description,
        enabled,
        created_at: now,
    }
}

/// The domain override that a request adds, under a fresh `id`.
pub fn create_domain(req: CreateDomainOverride, id: String, now: String) -> (r: Result<DomainOverride, Status>)
    ensures
        r is Ok <==> is_domain(req.domain@),
        r matches Ok(d) ==> is_requested_domain(d, req, id, now),
        r matches Err(s) ==> s == Status::BadRequest,
{
    if !validate_domain(req.domain.as_str()) {
        return Err(Status::BadRequest);
    }
    Ok(update_domain(id, req, now))
}

/// The access rule that a request adds, under a fresh `id`.
pub fn create_acl(req: CreateAccessListEntry, id: String, now: String) -> (r: Result<AccessListEntry, Status>)
    ensures
        r is Ok <==> is_network(req.network@) && is_acl_action(req.action@),
        r matches Ok(e) ==> e.id == id && e.network == req.network && e.action == req.action && e.description
            == req.description && e.created_at == now,
        r matches Err(s) ==> s == Status::BadRequest,
{
    if !validate_cidr_network(req.network.as_str()) || !validate_acl_action(req.action.as_str()) {
        return Err(Status::BadRequest);
    }
    Ok(
        AccessListEntry {
            id,
            network: req.network,
            action: req.action,
            description: req.description,
            created_at: now,
        },
    )
}

/// Accepts settings for storage, or says what is wrong with them.
pub fn check_config_update(c: &ResolverConfig) -> (r: Result<(), Refusal>)
    ensures
        r is Ok <==> dns64_prefix_ok(c@.dns64_prefix),
        r matches Err(e) ==> e.status == Status::BadRequest && e.message@ == if !has_length_96(c@.dns64_prefix) {
            "dns64_prefix must be an IPv6 /96 prefix (e.g. 64:ff9b::/96), got '"@ + c@.dns64_prefix + "'"@
        } else {
            "dns64_prefix is not a valid IPv6 prefix: '"@ + c@.dns64_prefix + "'"@
        },
{
    match validate_dns64_prefix(c.dns64_prefix.as_str()) {
        Ok(_) => Ok(()),
        Err(message) => Err(Refusal { status: Status::BadRequest, message }),
    }
}

/// Every text of `l` is an address.
pub open spec fn all_ips(l: Seq<Seq<char>>) -> bool {
    forall|i: int| 0 <= i < l.len() ==> is_ip(#[trigger] l[i])
}

/// The rows that make `servers` the upstream forwarders: forwarding is on
/// exactly where there is one. Every server must be an address.
pub fn set_forwarders(servers: &Vec<String>) -> (r: Result<Vec<KeyValue>, Status>)
    ensures
        r is Ok <==> all_ips(views(servers@)),
        r matches Ok(t) ==> rows(t@) == Seq::<(Seq<char>, Seq<char>)>::empty().push(
            ("forwarding_servers"@, join(views(servers@), seq![','])),
        ).push(("forwarding_enabled"@, bool_text(servers@.len() > 0))),
        r matches Err(s) ==> s == Status::BadRequest,
{
    let ghost all = views(servers@);
    let mut i: usize = 0;
    while i < servers.len()
        invariant
            i <= servers@.len(),
            all == views(servers@),
            forall|k: int| 0 <= k < i ==> is_ip(#[trigger] all[k]),
        decreases servers.len() - i,
    {
        if !ip_ok(servers[i].as_str()) {
            assert(!is_ip(all[i as int]));
            return Err(Status::BadRequest);
        }
        i = i + 1;
    }
    let mut t: Vec<KeyValue> = Vec::new();
    assert(rows(t@) =~= Seq::<(Seq<char>, Seq<char>)>::empty());
    put_list(&mut t, "forwarding_servers", ',', servers);
    put_flag(&mut t, "forwarding_enabled", servers.len() > 0);
    Ok(t)
}

/// Whether stored settings need forwarding turned on: it is off, yet servers
/// are configured. The shipped resolver does not follow referrals, so without
/// forwarding its clients get no answers.
pub open spec fn needs_forwarding(enabled: Option<Seq<char>>, servers: Option<Seq<char>>) -> bool {
    enabled == Some("false"@) && servers is Some && trim(servers->0).len() > 0
}

/// Decides [`needs_forwarding`] from the two stored values.
pub fn heal_forwarding(enabled: Option<&str>, servers: Option<&str>) -> (r: bool)
    ensures
        r == needs_forwarding(
            match enabled {
                Some(e) => Some(e@),
                None => None,
            },
            match servers {
                Some(s) => Some(s@),
                None => None,
            },
        ),
{
    match (enabled, servers) {
        (Some(e), Some(s)) => {
            let t = trimmed(s);
            same(e, "false") && !t.as_str().is_empty()
        },
        _ => false,
    }
}

/// What is answered once a host was to be deleted.
pub fn delete_host(rows_affected: u64) -> (r: Result<MessageResponse, Status>)
    ensures
        said(r) == (if rows_affected == 0 {
            Err::<Seq<char>, Status>(Status::NotFound)
        } else {
            Ok("Host override deleted"@)
        }),
{
    match require_row(rows_affected) {
        Ok(_) => Ok(MessageResponse { message: "Host override deleted".to_owned() }),
        Err(e) => Err(e),
    }
}

/// What is answered once a domain was to be deleted.
pub fn delete_domain(rows_affected: u64) -> (r: Result<MessageResponse, Status>)
    ensures
        said(r) == (if rows_affected == 0 {
            Err::<Seq<char>, Status>(Status::NotFound)
        } else {
            Ok("Domain override deleted"@)
        }),
{
    match require_row(rows_affected) {
        Ok(_) => Ok(MessageResponse { message: "Domain override deleted".to_owned() }),
        Err(e) => Err(e),
    }
}

/// What is answered once an access rule was to be deleted.
pub fn delete_acl(rows_affected: u64) -> (r: Result<MessageResponse, Status>)
    ensures
        said(r) == (if rows_affected == 0 {
            Err::<Seq<char>, Status>(Status::NotFound)
        } else {
            Ok("ACL entry deleted"@)
        }),
{
    match require_row(rows_affected) {
        Ok(_) => Ok(MessageResponse { message: "ACL entry deleted".to_owned() }),
        Err(e) => Err(e),
    }
}

// ---------------------------------------------------------------------------
// Laws
// ---------------------------------------------------------------------------

/// An override of a host holds what was asked for, each value in its own place; it is an
/// address where no type is given, and in force unless that is declined.
pub proof fn override_goes_by_its_request(h: HostOverride, req: CreateHostOverride, id: String, now: String)
    requires
        is_requested_host(h, req, id, now),
    ensures
        h.id == id,
        h.hostname == req.hostname,
        h.domain == req.domain,
        req.record_type matches Some(t) ==> h.record_type@ == t@,
        req.record_type is None ==> h.record_type@ == seq!['A'],
        h.value == req.value,
        h.mx_priority == req.mx_priority,
        h.description == req.description,
        h.enabled <==> req.enabled != Some(false),
        h.created_at == now,
{
    reveal_strlit("A");
    assert("A"@ =~= seq!['A']);
}

/// An override of a domain holds what was asked for, each value in its own place, and is in
/// force unless that is declined.
pub proof fn forward_goes_by_its_request(d: DomainOverride, req: CreateDomainOverride, id: String, now: String)
    requires
        is_requested_domain(d, req, id, now),
    ensures
        d.id == id,
        d.domain == req.domain,
        d.server == req.server,
        d.description == req.description,
        d.enabled <==> req.enabled != Some(false),
        d.created_at == now,
{
}

/// A request for an override is in order where host and domain are names and the value is one
/// of its type.
pub proof fn override_requests_need_their_parts(req: CreateHostOverride)
    ensures
        !is_domain(req.hostname@) ==> !host_request_ok(req),
        !is_domain(req.domain@) ==> !host_request_ok(req),
        req.record_type is None && ipv4(req.value@) is None ==> !host_request_ok(req),
        req.record_type matches Some(t) ==> !is_record_value(t@, req.value@) ==> !host_request_ok(req),
        is_domain(req.hostname@) && is_domain(req.domain@) && req.record_type is None && ipv4(req.value@) is Some
            ==> host_request_ok(req),
        is_domain(req.hostname@) && is_domain(req.domain@) ==> (req.record_type matches Some(t)
            ==> is_record_value(t@, req.value@) ==> host_request_ok(req)),
{
}

/// Servers are in order where each is an address.
pub proof fn every_server_is_an_address(l: Seq<Seq<char>>, i: int)
    ensures
        0 <= i < l.len() && !is_ip(l[i]) ==> !all_ips(l),
        (forall|k: int| 0 <= k < l.len() ==> is_ip(#[trigger] l[k])) ==> all_ips(l),
{
}

/// Forwarding is missed where servers are set and it is switched off.
pub proof fn forwarding_is_missed(servers: Seq<char>, other: Option<Seq<char>>)
    ensures
        trim(servers).len() > 0 ==> needs_forwarding(Some("false"@), Some(servers)),
        trim(servers).len() == 0 ==> !needs_forwarding(other, Some(servers)),
        !needs_forwarding(other, None),
        other != Some("false"@) ==> !needs_forwarding(other, Some(servers)),
{
}

/// Forwarding is switched on again where it is off and servers are set.
pub proof fn forwarding_is_healed(servers: &str, enabled: &str, r: bool)
    ensures
        call_ensures(heal_forwarding, (Some(enabled), Some(servers)), r) ==> (r <==> enabled@ == "false"@
            && trim(servers@).len() > 0),
        call_ensures(heal_forwarding, (Some(enabled), None::<&str>), r) ==> !r,
        call_ensures(heal_forwarding, (None::<&str>, Some(servers)), r) ==> !r,
{
}

/// An entry of an access list holds what was asked for, each value in its own place. A deletion
/// of nothing is not found, and any other is answered by its own words. Forwarders are stored
/// as one list, and forwarding is on where there are any.
pub proof fn resolver_edits_are_answered(q: CreateAccessListEntry, id: String, now: String, r: Result<AccessListEntry,
    Status>, n: u64, d: Result<MessageResponse, Status>, servers: &Vec<String>, f: Result<Vec<KeyValue>, Status>)
    ensures
        call_ensures(create_acl, (q, id, now), r) ==> (r is Ok <==> is_network(q.network@)
            && is_acl_action(q.action@)) && (r matches Ok(e) ==> e.id == id && e.network == q.network
            && e.action == q.action && e.description == q.description && e.created_at == now) && (r matches Err(s)
            ==> s == Status::BadRequest),
        call_ensures(delete_host, (n,), d) && n > 0 ==> d is Ok && d->Ok_0.message@ == "Host override deleted"@,
        call_ensures(delete_domain, (n,), d) && n > 0 ==> d is Ok && d->Ok_0.message@ == "Domain override deleted"@,
        call_ensures(delete_acl, (n,), d) && n > 0 ==> d is Ok && d->Ok_0.message@ == "ACL entry deleted"@,
        call_ensures(delete_host, (0u64,), d) || call_ensures(delete_domain, (0u64,), d)
            || call_ensures(delete_acl, (0u64,), d) ==> d == Err::<MessageResponse, Status>(Status::NotFound),
        call_ensures(set_forwarders, (servers,), f) ==> (f is Ok <==> all_ips(views(servers@))) && (f matches Err(s)
            ==> s == Status::BadRequest),
        call_ensures(set_forwarders, (servers,), f) && servers@.len() > 0 ==> (f matches Ok(t)
            ==> rows(t@) == seq![("forwarding_servers"@, join(views(servers@), seq![','])), ("forwarding_enabled"@,
            "true"@)]),
        call_ensures(set_forwarders, (servers,), f) && servers@.len() == 0 ==> (f matches Ok(t)
            ==> rows(t@)[1] == ("forwarding_enabled"@, "false"@)),
{
}

} // verus!
