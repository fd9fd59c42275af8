//! Static routes: what may be entered, how the system's `route` program is
//! called, and what its answer means.

use vstd::prelude::*;
use vstd::string::*;

use crate::net::{cut_at_slash, first_slash, ip_ok, is_ip, lemma_first_slash};
use crate::number::{dec, fmt_u64, parse_u8, parsed};
use crate::status::Status;
use crate::text::{cat2, cat3, contains_text, has_text, push_line, same, views};

verus! {

/// A route as it is stored.
#[derive(Clone, Debug)]
pub struct StaticRoute {
    pub id: String,
    pub destination: String,
    pub gateway: String,
    pub interface: Option<String>,
    pub metric: i32,
    pub enabled: bool,
    pub description: Option<String>,
    pub created_at: String,
    pub fib: u32,
}

/// A request to add or replace a [`StaticRoute`].
#[derive(Clone, Debug)]
pub struct CreateRouteRequest {
    pub destination: String,
    pub gateway: String,
    pub interface: Option<String>,
    pub metric: Option<i32>,
    pub enabled: Option<bool>,
    pub description: Option<String>,
    pub fib: Option<u32>,
}

/// A route of the running system.
#[derive(Clone, Debug)]
pub struct SystemRoute {
    pub destination: String,
    pub gateway: String,
    pub flags: String,
    pub interface: String,
}

/// What a route can lead to or through: `default`, an address, or an address
/// with a prefix length of at most 128.
pub open spec fn is_route_target(s: Seq<char>) -> bool {
    if s == "default"@ {
        true
    } else if s.contains('/') {
        let prefix = parsed(s.skip(first_slash(s) + 1), 255);
        is_ip(s.take(first_slash(s))) && prefix is Some && prefix->0 <= 128
    } else {
        is_ip(s)
    }
}

/// Checks the destination or the gateway of a route.
pub fn validate_route_target(s: &str) -> (r: Result<(), Status>)
    ensures
        r is Ok <==> is_route_target(s@),
        r matches Err(e) ==> e == Status::BadRequest,
{
    if same(s, "default") {
        return Ok(());
    }
    let ok = match cut_at_slash(s) {
        Some((ip, prefix)) => ip_ok(ip.as_str()) && (match parse_u8(prefix.as_str()) {
            Some(n) => n <= 128,
            None => false,
        }),
        None => ip_ok(s),
    };
    if ok {
        Ok(())
    } else {
        Err(Status::BadRequest)
    }
}

/// A request for a route that is accepted. `interface_ok` is the verdict on
/// the interface's name, where the request has one.
pub open spec fn route_request_ok(req: CreateRouteRequest, interface_ok: bool) -> bool {
    is_route_target(req.destination@) && is_route_target(req.gateway@) && (req.interface is Some ==> interface_ok)
}

/// `t` is the route that `req` asks for.
pub open spec fn is_requested_route(t: StaticRoute, req: CreateRouteRequest, id: String, now: String) -> bool {
    &&& t.id == id
    &&& t.destination == req.destination
    &&& t.gateway == req.gateway
    &&& t.interface == req.interface
    &&& t.metric == (match req.metric {
        Some(m) => m,
        None => 0i32,
    })
    &&& t.enabled == (match req.enabled {
        Some(e) => e,
        None => true,
    })
    &&& t.description == req.description
    &&& t.created_at == now
    &&& t.fib == (match req.fib {
        Some(f) => f,
        None => 0u32,
    })
}

/// The route that a request adds, under a fresh `id`.
pub fn create_static_route(req: CreateRouteRequest, interface_ok: bool, id: String, now: String) -> (r: Result<
    StaticRoute,
    Status,
>)
    ensures
        r is Ok <==> route_request_ok(req, interface_ok),
        r matches Ok(t) ==> is_requested_route(t, req, id, now),
        r matches Err(e) ==> e == Status::BadRequest,
{
    match validate_route_target(req.destination.as_str()) {
        Ok(_) => {},
        Err(e) => {
            return Err(e);
        },
    }
    match validate_route_target(req.gateway.as_str()) {
        Ok(_) => {},
        Err(e) => {
            return Err(e);
        },
    }
    if req.interface.is_some() && !interface_ok {
        return Err(Status::BadRequest);
    }
    Ok(
        StaticRoute {
            id,
            destination: req.destination,
            gateway: req.gateway,
            interface: req.interface,
            metric: match req.metric {
                Some(m) => m,
                None => 0,
            },
            enabled: match req.enabled {
                Some(e) => e,
                None => true,
            },
            description: req.description,
            created_at: now,
            fib: match req.fib {
                Some(f) => f,
                None => 0,
            },
        },
    )
}

/// The route that a request puts in place of the one under `id`, where there
/// is one: a request that is not valid is a bad request first.
pub fn update_static_route(id: String, req: CreateRouteRequest, interface_ok: bool, stored: bool, now: String) -> (r: Result<
    StaticRoute,
    Status,
>)
    ensures
        r is Ok <==> route_request_ok(req, interface_ok) && stored,
        r matches Ok(t) ==> is_requested_route(t, req, id, now),
        r matches Err(e) ==> e == (if route_request_ok(req, interface_ok) {
            Status::NotFound
        } else {
            Status::BadRequest
        }),
{
    match create_static_route(req, interface_ok, id, now) {
        Ok(t) => if stored {
            Ok(t)
        } else {
            Err(Status::NotFound)
        },
        Err(e) => Err(e),
    }
}

/// The words that every call of `route` starts with: the routing table is
/// named where it is not the first one.
pub open spec fn route_words(fib: u32) -> Seq<Seq<char>> {
    let l = Seq::<Seq<char>>::empty().push("/sbin/route"@);
    if fib > 0 {
        l.push("-fib"@).push(dec(fib as nat))
    } else {
        l
    }
}

/// The arguments that add a route.
pub open spec fn add_words(destination: Seq<char>, gateway: Seq<char>, interface: Option<Seq<char>>, fib: u32) -> Seq<
    Seq<char>,
> {
    let l = route_words(fib).push("add"@).push(destination).push(gateway);
    match interface {
        Some(i) => l.push("-interface"@).push(i),
        None => l,
    }
}

/// The arguments that remove a route.
pub open spec fn delete_words(destination: Seq<char>, gateway: Seq<char>, fib: u32) -> Seq<Seq<char>> {
    route_words(fib).push("delete"@).push(destination).push(gateway)
}

fn start_words(fib: u32) -> (l: Vec<String>)
    ensures
        views(l@) == route_words(fib),
{
    let mut l: Vec<String> = Vec::new();
    assert(views(l@) =~= Seq::<Seq<char>>::empty());
    push_line(&mut l, "/sbin/route".to_owned());
    if fib > 0 {
        push_line(&mut l, "-fib".to_owned());
        push_line(&mut l, fmt_u64(fib as u64));
    }
    l
}

/// The arguments that add a route to the running system.
pub fn route_add_args(destination: &str, gateway: &str, interface: Option<&str>, fib: u32) -> (l: Vec<String>)
    ensures
        views(l@) == add_words(
            destination@,
            gateway@,
            match interface {
                Some(i) => Some(i@),
                None => None,
            },
            fib,
        ),
{
    let mut l = start_words(fib);
    push_line(&mut l, "add".to_owned());
    push_line(&mut l, destination.to_owned());
    push_line(&mut l, gateway.to_owned());
    match interface {
        Some(i) => {
            push_line(&mut l, "-interface".to_owned());
            push_line(&mut l, i.to_owned());
        },
        None => {},
    }
    l
}

/// The arguments that remove a route from the running system.
pub fn route_delete_args(destination: &str, gateway: &str, fib: u32) -> (l: Vec<String>)
    ensures
        views(l@) == delete_words(destination@, gateway@, fib),
{
    let mut l = start_words(fib);
    push_line(&mut l, "delete".to_owned());
    push_line(&mut l, destination.to_owned());
    push_line(&mut l, gateway.to_owned());
    l
}

/// What a call of `route add` came to: a route that is there already is as
/// good as one that was added.
pub fn route_add_result(success: bool, stderr: &str) -> (r: Result<(), String>)
    ensures
        r is Ok <==> success || has_text(stderr@, "File exists"@),
        r matches Err(m) ==> m@ == "route add failed: "@ + stderr@,
{
    if success || contains_text(stderr, "File exists") {
        Ok(())
    } else {
        Err(cat2("route add failed: ", stderr))
    }
}

/// The values of a list of calls.
pub open spec fn calls(v: Seq<Vec<String>>) -> Seq<Seq<Seq<char>>> {
    v.map_values(|l: Vec<String>| views(l@))
}

/// The call that removes the route, where it is in place.
pub open spec fn removal(old: Option<StaticRoute>) -> Seq<Seq<Seq<char>>> {
    match old {
        Some(t) => if t.enabled {
            Seq::<Seq<Seq<char>>>::empty().push(delete_words(t.destination@, t.gateway@, t.fib))
        } else {
            Seq::<Seq<Seq<char>>>::empty()
        },
        None => Seq::<Seq<Seq<char>>>::empty(),
    }
}

/// The call that adds the route, where it is to be in place.
pub open spec fn addition(new: Option<StaticRoute>) -> Seq<Seq<Seq<char>>> {
    match new {
        Some(t) => if t.enabled {
            Seq::<Seq<Seq<char>>>::empty().push(
                add_words(t.destination@, t.gateway@, crate::kv::option_view(t.interface), t.fib),
            )
        } else {
            Seq::<Seq<Seq<char>>>::empty()
        },
        None => Seq::<Seq<Seq<char>>>::empty(),
    }
}

/// The calls of `route` that bring the running system from one state of a
/// stored route to another: the old one is removed first.
pub fn route_calls(old: Option<&StaticRoute>, new: Option<&StaticRoute>) -> (r: Vec<Vec<String>>)
    ensures
        calls(r@) == removal(
            match old {
                Some(t) => Some(*t),
                None => None,
            },
        ) + addition(
            match new {
                Some(t) => Some(*t),
                None => None,
            },
        ),
{
    let mut r: Vec<Vec<String>> = Vec::new();
    match old {
        Some(t) => {
            if t.enabled {
                r.push(route_delete_args(t.destination.as_str(), t.gateway.as_str(), t.fib));
            }
        },
        None => {},
    }
    let ghost first = calls(r@);
    assert(first =~= removal(
        match old {
            Some(t) => Some(*t),
            None => None,
        },
    ));
    match new {
        Some(t) => {
            if t.enabled {
                let interface = match &t.interface {
                    Some(i) => Some(i.as_str()),
                    None => None,
                };
                r.push(route_add_args(t.destination.as_str(), t.gateway.as_str(), interface, t.fib));
            }
        },
        None => {},
    }
    assert(calls(r@) =~= first + addition(
        match new {
            Some(t) => Some(*t),
            None => None,
        },
    ));
    r
}

/// What is said of a route that was deleted.
pub fn route_deleted(destination: &str) -> (r: String)
    ensures
        r@ == "Route to "@ + destination@ + " deleted"@,
{
    cat3("Route to ", destination, " deleted")
}

// ---------------------------------------------------------------------------
// Laws
// ---------------------------------------------------------------------------

/// A route leads to `default`, to an address, or to an address with a prefix length of at
/// most 128 behind a slash, and to nothing else.
pub proof fn targets_of_routes(a: Seq<char>, b: Seq<char>)
    ensures
        is_route_target(seq!['d', 'e', 'f', 'a', 'u', 'l', 't']),
        !a.contains('/') && a != "default"@ ==> (is_route_target(a) <==> is_ip(a)),
        !a.contains('/') ==> (is_route_target(a + seq!['/'] + b) <==> is_ip(a) && (parsed(b, 255) matches Some(n)
            && n <= 128)),
{
    reveal_strlit("default");
    assert("default"@ =~= seq!['d', 'e', 'f', 'a', 'u', 'l', 't']);
    let s = a + seq!['/'] + b;
    assert(s[a.len() as int] == '/');
    if !a.contains('/') {
        assert forall|k: int| 0 <= k < a.len() implies s[k] != '/' by {
            assert(s[k] == a[k]);
            assert(a.contains(a[k]));
        }
        lemma_first_slash(s, a.len() as int);
        assert(s.take(a.len() as int) =~= a);
        assert(s.skip(a.len() as int + 1) =~= b);
        assert(s.contains('/'));
        assert(s != "default"@) by {
            if s == "default"@ {
                assert("default"@[a.len() as int] == '/');
            }
        }
    }
}

/// A request for a route is in order where both its ends are targets and its interface, where
/// it names one, is in order.
pub proof fn route_requests_need_their_parts(req: CreateRouteRequest, interface_ok: bool)
    ensures
        route_request_ok(req, interface_ok) ==> is_route_target(req.destination@),
        route_request_ok(req, interface_ok) ==> is_route_target(req.gateway@),
        req.interface is Some && !interface_ok ==> !route_request_ok(req, interface_ok),
        is_route_target(req.destination@) && is_route_target(req.gateway@) && interface_ok
            ==> route_request_ok(req, interface_ok),
        is_route_target(req.destination@) && is_route_target(req.gateway@) && req.interface is None
            ==> route_request_ok(req, interface_ok),
{
}

/// A route holds what was asked for, each value in its own place; a metric and a table that
/// are not given are zero, and a route is in force unless that is declined.
pub proof fn route_goes_by_its_request(t: StaticRoute, req: CreateRouteRequest, id: String, now: String)
    requires
        is_requested_route(t, req, id, now),
    ensures
        t.id == id,
        t.destination == req.destination,
        t.gateway == req.gateway,
        t.interface == req.interface,
        t.description == req.description,
        t.created_at == now,
        req.metric matches Some(m) ==> t.metric == m,
        req.metric is None ==> t.metric == 0,
        t.enabled <==> req.enabled != Some(false),
        req.fib matches Some(f) ==> t.fib == f,
        req.fib is None ==> t.fib == 0,
{
}

/// A route is added and deleted by the same command but for the word; a table above zero is
/// named first, and an interface last when adding.
pub proof fn commands_for_routes(destination: Seq<char>, gateway: Seq<char>, interface: Seq<char>, fib: u32)
    ensures
        add_words(destination, gateway, None, 0) == seq!["/sbin/route"@, "add"@, destination, gateway],
        delete_words(destination, gateway, 0) == seq!["/sbin/route"@, "delete"@, destination, gateway],
        fib > 0 ==> add_words(destination, gateway, None, fib) == seq!["/sbin/route"@, "-fib"@, dec(fib as nat),
            "add"@, destination, gateway],
        fib > 0 ==> delete_words(destination, gateway, fib) == seq!["/sbin/route"@, "-fib"@, dec(fib as nat),
            "delete"@, destination, gateway],
        add_words(destination, gateway, Some(interface), fib) == add_words(destination, gateway, None,
            fib) + seq!["-interface"@, interface],
{
}

/// A route that is not in force is neither added nor deleted; one that is in force is added
/// and deleted by one command each, with its own ends and table.
pub proof fn only_enabled_routes_are_carried_out(t: StaticRoute)
    ensures
        removal(None).len() == 0,
        addition(None).len() == 0,
        !t.enabled ==> removal(Some(t)).len() == 0 && addition(Some(t)).len() == 0,
        t.enabled ==> removal(Some(t)) == seq![delete_words(t.destination@, t.gateway@, t.fib)],
        t.enabled && t.interface is None ==> addition(Some(t)) == seq![add_words(t.destination@, t.gateway@, None,
            t.fib)],
        t.enabled ==> (t.interface matches Some(i)
            ==> addition(Some(t)) == seq![add_words(t.destination@, t.gateway@, Some(i@), t.fib)]),
{
}

/// Commands stand for their words, in order.
pub proof fn commands_stay_in_order(v: Seq<Vec<String>>, i: int)
    ensures
        calls(v).len() == v.len(),
        0 <= i < v.len() ==> calls(v)[i] == views(v[i]@),
{
}

/// A change deletes the old route and then adds the new one; a new route is only added and an
/// old one only deleted, and neither where it is not in force.
pub proof fn old_routes_go_before_new_ones(old_route: &StaticRoute, new_route: &StaticRoute, r: Vec<Vec<String>>)
    ensures
        call_ensures(route_calls, (Some(old_route), Some(new_route)), r) && old_route.enabled && new_route.enabled
            && new_route.interface is None
            ==> calls(r@) == seq![delete_words(old_route.destination@, old_route.gateway@, old_route.fib),
            add_words(new_route.destination@, new_route.gateway@, None, new_route.fib)],
        call_ensures(route_calls, (Some(old_route), None::<&StaticRoute>), r) && old_route.enabled
            ==> calls(r@) == seq![delete_words(old_route.destination@, old_route.gateway@, old_route.fib)],
        call_ensures(route_calls, (None::<&StaticRoute>, Some(new_route)), r) && new_route.enabled
            && new_route.interface is None
            ==> calls(r@) == seq![add_words(new_route.destination@, new_route.gateway@, None, new_route.fib)],
        call_ensures(route_calls, (Some(old_route), Some(new_route)), r) && !old_route.enabled && !new_route.enabled
            ==> calls(r@).len() == 0,
{
}

/// A route is made or changed where the request is in order, and changed only where it is stored.
pub proof fn routes_are_made_and_changed(req: CreateRouteRequest, interface_ok: bool, stored: bool, id: String,
    now: String, r: Result<StaticRoute, Status>)
    ensures
        call_ensures(create_static_route, (req, interface_ok, id, now), r) ==> (r is Ok
            <==> route_request_ok(req, interface_ok)) && (r matches Ok(t) ==> t.id == id && t.created_at == now
            && t.destination == req.destination && t.gateway == req.gateway) && (r matches Err(e)
            ==> e == Status::BadRequest),
        call_ensures(update_static_route, (id, req, interface_ok, stored, now), r) ==> (r is Ok
            <==> route_request_ok(req, interface_ok) && stored) && (r matches Ok(t) ==> t.id == id
            && t.created_at == now && t.destination == req.destination && t.gateway == req.gateway),
        call_ensures(update_static_route, (id, req, interface_ok, stored, now), r)
            && !route_request_ok(req, interface_ok) ==> r == Err::<StaticRoute, Status>(Status::BadRequest),
        call_ensures(update_static_route, (id, req, interface_ok, false, now), r)
            && route_request_ok(req, interface_ok) ==> r == Err::<StaticRoute, Status>(Status::NotFound),
{
}

/// Adding a route goes through where the command did or the route was there already; otherwise
/// the answer quotes the command.
pub proof fn routes_that_exist_are_added(stderr: &str, r: Result<(), String>, t: String)
    ensures
        call_ensures(route_add_result, (true, stderr), r) ==> r is Ok,
        call_ensures(route_add_result, (false, stderr), r) && has_text(stderr@, "File exists"@) ==> r is Ok,
        call_ensures(route_add_result, (false, stderr), r) && !has_text(stderr@, "File exists"@) ==> r is Err
            && r->Err_0@ == "route add failed: "@ + stderr@,
        call_ensures(route_deleted, (stderr,), t) ==> t@ == "Route to "@ + stderr@ + " deleted"@,
{
}

} // verus!
