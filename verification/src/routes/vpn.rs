//! WireGuard tunnels and their peers, and IPsec tunnels.

use vstd::prelude::*;
use vstd::set_lib::*;
use vstd::string::*;

use crate::backup::model::{Address, IpsecAuthMethod, IpsecSaConfig, IpsecTunnel};
use crate::identifiers::{answer_change, change_answer, require_uuid, said, uuid_text};
use crate::ids::{either, picked};
use crate::kv::option_view;
use crate::number::{dec, fmt_u64, parse_u32, parsed};
use crate::status::{engine_refusal, kind_status, refuse, EngineFailure, MessageResponse, Refusal, Status};
use crate::text::{
    cat2, cat3, has_prefix, lines, lines_of, push_line, same, split, split_text, strip_prefix, trim, trimmed, views,
    words, words_of,
};

verus! {

// ---------------------------------------------------------------------------
// WireGuard tunnels
// ---------------------------------------------------------------------------

/// A tunnel that is to be made or changed.
#[derive(Clone, Debug)]
pub struct CreateWgTunnelRequest {
    pub name: String,
    pub listen_port: u16,
    pub address: String,
    /// The address of the tunnel in IPv6; a blank one is none.
    pub address6: Option<String>,
    pub private_key: Option<String>,
    pub dns: Option<String>,
    pub mtu: Option<u16>,
    pub listen_interface: Option<String>,
    /// The networks that go through the tunnel; blank ones are none.
    pub split_routes: Option<String>,
}

/// A tunnel.
#[derive(Clone, Debug)]
pub struct WgTunnel {
    pub name: String,
    pub interface: String,
    pub listen_port: u16,
    pub address: Address,
    pub address6: Option<Address>,
    pub private_key: String,
    pub public_key: String,
    pub dns: Option<String>,
    pub mtu: Option<u16>,
    pub listen_interface: Option<String>,
    pub split_routes: Option<String>,
}

/// The text without surrounding white space, where something is left.
pub open spec fn unless_blank(s: Option<Seq<char>>) -> Option<Seq<char>> {
    match s {
        Some(t) => if trim(t).len() == 0 {
            None
        } else {
            Some(trim(t))
        },
        None => None,
    }
}

/// The text without surrounding white space, where something is left.
pub fn filled_text(raw: Option<&str>) -> (r: Option<String>)
    ensures
        option_view(r) == unless_blank(
            match raw {
                Some(t) => Some(t@),
                None => None,
            },
        ),
{
    match raw {
        Some(s) => {
            let t = trimmed(s);
            if t.as_str().is_empty() {
                None
            } else {
                Some(t)
            }
        },
        None => None,
    }
}

fn filled_option(raw: &Option<String>) -> (r: Option<String>)
    ensures
        option_view(r) == unless_blank(option_view(*raw)),
{
    match raw {
        Some(s) => filled_text(Some(s.as_str())),
        None => None,
    }
}

/// The address of a tunnel in IPv6: none where it is blank. `read` is what the
/// firewall makes of the text, and nothing where it is no address.
pub fn parse_address6(raw: Option<&str>, read: Option<Address>) -> (r: Result<Option<Address>, Status>)
    ensures
        r == (if unless_blank(
            match raw {
                Some(t) => Some(t@),
                None => None,
            },
        ) is None {
            Ok(None)
        } else {
            match read {
                Some(a) => Ok(Some(a)),
                None => Err(Status::BadRequest),
            }
        }),
{
    match filled_text(raw) {
        Some(_) => match read {
            Some(a) => Ok(Some(a)),
            None => Err(Status::BadRequest),
        },
        None => Ok(None),
    }
}

/// The number of an interface `wg0`, `wg1` and so on.
pub open spec fn wg_index(name: Seq<char>) -> Option<nat> {
    if has_prefix(name, "wg"@) {
        parsed(name.skip("wg"@.len() as int), u32::MAX as nat)
    } else {
        None
    }
}

/// The number is taken.
pub open spec fn is_taken(names: Seq<Seq<char>>, n: int) -> bool {
    exists|i: int| 0 <= i < names.len() && (wg_index(#[trigger] names[i]) matches Some(k) && k == n)
}

fn taken_indices(names: &Vec<String>) -> (r: Vec<u32>)
    ensures
        r@.len() <= names@.len(),
        forall|n: u32| r@.contains(n) <==> #[trigger] is_taken(views(names@), n as int),
{
    let mut r: Vec<u32> = Vec::new();
    let ghost all = views(names@);
    assert(all.len() == names@.len());
    let mut i: usize = 0;
    while i < names.len()
        invariant
            i <= names@.len(),
            all == views(names@),
            all.len() == names@.len(),
            r@.len() <= i,
            forall|n: u32| r@.contains(n) <==> #[trigger] is_taken(all.take(i as int), n as int),
        decreases names.len() - i,
    {
        let ghost before = r@;
        let ghost old_names = all.take(i as int);
        let ghost new_names = all.take(i + 1);
        let name = names[i].as_str();
        assert(name@ == all[i as int]);
        let mut found: Option<u32> = None;
        match strip_prefix(name, "wg") {
            Some(rest) => {
                found = parse_u32(rest.as_str());
            },
            None => {},
        }
        match found {
            Some(n) => r.push(n),
            None => {},
        }
        proof {
            assert forall|n: u32| r@.contains(n) <==> #[trigger] is_taken(new_names, n as int) by {
                assert(before.contains(n) <==> is_taken(old_names, n as int));
                if is_taken(new_names, n as int) {
                    let k = choose|k: int|
                        0 <= k < new_names.len() && (wg_index(#[trigger] new_names[k]) matches Some(x) && x == n);
                    if k < i {
                        assert(old_names[k] == new_names[k]);
                        assert(is_taken(old_names, n as int));
                        let j = choose|j: int| 0 <= j < before.len() && before[j] == n;
                        assert(r@[j] == n);
                    } else {
                        assert(r@[r@.len() - 1] == n);
                    }
                }
                if r@.contains(n) {
                    let j = choose|j: int| 0 <= j < r@.len() && r@[j] == n;
                    if j < before.len() {
                        assert(before[j] == n);
                        assert(is_taken(old_names, n as int));
                        let k = choose|k: int|
                            0 <= k < old_names.len() && (wg_index(#[trigger] old_names[k]) matches Some(x) && x == n);
                        assert(new_names[k] == old_names[k]);
                    } else {
                        assert(new_names[i as int] == name@);
                    }
                }
            }
        }
        i = i + 1;
    }
    assert(all.take(names@.len() as int) =~= all);
    r
}

fn holds(v: &Vec<u32>, n: u32) -> (r: bool)
    ensures
        r == v@.contains(n),
{
    let mut i: usize = 0;
    while i < v.len()
        invariant
            i <= v@.len(),
            forall|k: int| 0 <= k < i ==> v@[k] != n,
        decreases v.len() - i,
    {
        if v[i] == n {
            assert(v@[i as int] == n);
            return true;
        }
        i = i + 1;
    }
    false
}

/// Where the numbers below `n` are all in a list, the list has `n` entries at
/// least.
proof fn lemma_pigeonhole(v: Seq<u32>, n: int)
    requires
        0 <= n <= u32::MAX,
        forall|k: u32| 0 <= k < n ==> #[trigger] v.contains(k),
    ensures
        n <= v.len(),
{
    let w = v.map_values(|x: u32| x as int);
    assert forall|k: int| set_int_range(0, n).contains(k) implies w.to_set().contains(k) by {
        assert(v.contains(k as u32));
        let i = choose|i: int| 0 <= i < v.len() && v[i] == k as u32;
        assert(w[i] == k);
    }
    lemma_int_range(0, n);
    w.lemma_cardinality_of_set();
    vstd::seq_lib::seq_to_set_is_finite(w);
    lemma_len_subset(set_int_range(0, n), w.to_set());
}

/// The lowest number that is free.
pub open spec fn is_lowest_free(names: Seq<Seq<char>>, n: int) -> bool {
    !is_taken(names, n) && forall|k: int| 0 <= k < n ==> #[trigger] is_taken(names, k)
}

/// The lowest number that no interface `wg0`, `wg1` and so on has.
pub fn free_wg_index(names: &Vec<String>) -> (n: u32)
    requires
        names@.len() < u32::MAX,
    ensures
        is_lowest_free(views(names@), n as int),
{
    let taken = taken_indices(names);
    let mut n: u32 = 0;
    while holds(&taken, n)
        invariant
            taken@.len() < u32::MAX,
            forall|k: u32| 0 <= k < n ==> #[trigger] taken@.contains(k),
        decreases u32::MAX - n,
    {
        proof {
            lemma_pigeonhole(taken@, n as int);
        }
        n = n + 1;
    }
    assert forall|k: int| 0 <= k < n implies #[trigger] is_taken(views(names@), k) by {
        assert(taken@.contains(k as u32));
    }
    n
}

/// What the firewall makes of a request: nothing where something is not valid.
#[derive(Clone, Debug)]
pub struct WgReadings {
    pub address: Option<Address>,
    pub address6: Option<Address>,
    /// A new private key and its public key.
    pub generated: Option<(String, String)>,
    /// The public key of the private key that the request gives.
    pub derived: Option<String>,
}

/// The addresses of a request are valid.
pub open spec fn addresses_valid(q: CreateWgTunnelRequest, v: WgReadings) -> bool {
    v.address is Some && (unless_blank(option_view(q.address6)) is Some ==> v.address6 is Some)
}

/// The address of the tunnel in IPv6, of a valid request.
pub open spec fn requested_address6(q: CreateWgTunnelRequest, v: WgReadings) -> Option<Address> {
    if unless_blank(option_view(q.address6)) is None {
        None
    } else {
        v.address6
    }
}

/// `t` has what the request asks for, apart from its keys and its interface.
pub open spec fn is_wg_requested(t: WgTunnel, q: CreateWgTunnelRequest, v: WgReadings) -> bool {
    &&& t.name == q.name
    &&& t.listen_port == q.listen_port
    &&& Some(t.address) == v.address
    &&& t.address6 == requested_address6(q, v)
    &&& t.dns == q.dns
    &&& t.mtu == q.mtu
    &&& t.listen_interface == q.listen_interface
    &&& option_view(t.split_routes) == unless_blank(option_view(q.split_routes))
}

/// Why a tunnel cannot be made.
pub open spec fn wg_create_error(q: CreateWgTunnelRequest, v: WgReadings) -> Option<Status> {
    if !addresses_valid(q, v) {
        Some(Status::BadRequest)
    } else if v.generated is None {
        Some(Status::Internal)
    } else if q.private_key is Some && v.derived is None {
        Some(Status::BadRequest)
    } else {
        None
    }
}

/// A new tunnel, on the first interface that is free. A private key of the
/// request comes with the public key that belongs to it.
pub fn create_wg_tunnel(q: CreateWgTunnelRequest, v: WgReadings, interfaces: &Vec<String>) -> (r: Result<WgTunnel, Status>)
    requires
        interfaces@.len() < u32::MAX,
    ensures
        match r {
            Ok(t) => {
                &&& wg_create_error(q, v) is None
                &&& is_wg_requested(t, q, v)
                &&& exists|n: int|
                    0 <= n && #[trigger] is_lowest_free(views(interfaces@), n) && t.interface@ == "wg"@ + dec(n as nat)
                &&& match q.private_key {
                    Some(k) => t.private_key == k && Some(t.public_key) == v.derived,
                    None => Some((t.private_key, t.public_key)) == v.generated,
                }
            },
            Err(e) => wg_create_error(q, v) == Some(e),
        },
{
    let address = match v.address {
        Some(a) => a,
        None => {
            return Err(Status::BadRequest);
        },
    };
    let address6 = match &q.address6 {
        Some(s) => parse_address6(Some(s.as_str()), v.address6),
        None => parse_address6(None, v.address6),
    };
    let address6 = match address6 {
        Ok(a) => a,
        Err(e) => {
            return Err(e);
        },
    };
    let n = free_wg_index(interfaces);
    let digits = fmt_u64(n as u64);
    let interface = cat2("wg", digits.as_str());
    let keys = match v.generated {
        Some(k) => k,
        None => {
            return Err(Status::Internal);
        },
    };
    let (private_key, public_key) = match q.private_key {
        Some(k) => match v.derived {
            Some(p) => (k, p),
            None => {
                return Err(Status::BadRequest);
            },
        },
        None => keys,
    };
    let split_routes = filled_option(&q.split_routes);
    assert(is_lowest_free(views(interfaces@), n as int));
    Ok(
        WgTunnel {
            name: q.name,
            interface,
            listen_port: q.listen_port,
            address,
            address6,
            private_key,
            public_key,
            dns: q.dns,
            mtu: q.mtu,
            listen_interface: q.listen_interface,
            split_routes,
        },
    )
}

/// Why the entity `id` cannot be changed: what is no identifier is a bad
/// request, and what is not there is not found. Last comes whether the request
/// is valid.
pub open spec fn change_error(id: Seq<char>, found: bool, valid: bool) -> Option<Status> {
    if uuid_text(id) is None {
        Some(Status::BadRequest)
    } else if !found {
        Some(Status::NotFound)
    } else if !valid {
        Some(Status::BadRequest)
    } else {
        None
    }
}

/// A tunnel with what is to be changed: its keys and its interface stay.
/// `current` is what the engine found under the identifier.
pub fn update_wg_tunnel(id: &str, current: Option<WgTunnel>, q: CreateWgTunnelRequest, v: WgReadings) -> (r: Result<
    WgTunnel,
    Status,
>)
    ensures
        match r {
            Ok(n) => {
                &&& change_error(id@, current is Some, addresses_valid(q, v)) is None
                &&& is_wg_requested(n, q, v)
                &&& n.interface == current->0.interface
                &&& n.private_key == current->0.private_key
                &&& n.public_key == current->0.public_key
            },
            Err(e) => change_error(id@, current is Some, addresses_valid(q, v)) == Some(e),
        },
{
    match require_uuid(id) {
        Ok(_) => {},
        Err(e) => {
            return Err(e);
        },
    }
    let t = match current {
        Some(t) => t,
        None => {
            return Err(Status::NotFound);
        },
    };
    let address = match v.address {
        Some(a) => a,
        None => {
            return Err(Status::BadRequest);
        },
    };
    let address6 = match &q.address6 {
        Some(s) => parse_address6(Some(s.as_str()), v.address6),
        None => parse_address6(None, v.address6),
    };
    let address6 = match address6 {
        Ok(a) => a,
        Err(e) => {
            return Err(e);
        },
    };
    let split_routes = filled_option(&q.split_routes);
    Ok(
        WgTunnel {
            name: q.name,
            interface: t.interface,
            listen_port: q.listen_port,
            address,
            address6,
            private_key: t.private_key,
            public_key: t.public_key,
            dns: q.dns,
            mtu: q.mtu,
            listen_interface: q.listen_interface,
            split_routes,
        },
    )
}

// ---------------------------------------------------------------------------
// WireGuard peers
// ---------------------------------------------------------------------------

/// A peer that is to be made.
#[derive(Clone, Debug)]
pub struct CreateWgPeerRequest {
    pub name: Option<String>,
    pub public_key: Option<String>,
    pub preshared_key: Option<String>,
    pub auto_generate_key: Option<bool>,
    pub endpoint: Option<String>,
    pub allowed_ips: String,
    pub keepalive: Option<u16>,
}

/// What is to be changed of a peer.
#[derive(Clone, Debug)]
pub struct UpdateWgPeerRequest {
    pub name: Option<String>,
    pub endpoint: Option<String>,
    pub allowed_ips: Option<String>,
    pub keepalive: Option<u16>,
    pub preshared_key: Option<String>,
}

/// A peer.
#[derive(Clone, Debug)]
pub struct WgPeer {
    pub name: String,
    pub public_key: String,
    /// Kept where the key was made here.
    pub private_key: Option<String>,
    pub preshared_key: Option<String>,
    pub endpoint: Option<String>,
    pub allowed_ips: Vec<Address>,
    pub persistent_keepalive: Option<u16>,
}

/// The addresses of a peer are left to the server.
pub open spec fn is_automatic(s: Seq<char>) -> bool {
    trim(s).len() == 0 || trim(s) == "auto"@
}

/// Whether the addresses of a peer are left to the server, which then gives
/// the next free one.
pub fn assigns_address(allowed_ips: &str) -> (r: bool)
    ensures
        r == is_automatic(allowed_ips@),
{
    let t = trimmed(allowed_ips);
    t.as_str().is_empty() || same(t.as_str(), "auto")
}

/// The texts of the addresses in a list with commas.
pub open spec fn address_texts(s: Seq<char>) -> Seq<Seq<char>> {
    split(s, ',').map_values(|p: Seq<char>| trim(p))
}

/// The texts of the addresses in a list with commas, which the firewall then
/// reads.
pub fn split_addresses(s: &str) -> (r: Vec<String>)
    ensures
        views(r@) == address_texts(s@),
{
    let v = split_text(s, ',');
    let ghost all = views(v@);
    let mut r: Vec<String> = Vec::new();
    let mut i: usize = 0;
    while i < v.len()
        invariant
            i <= v@.len(),
            all == views(v@),
            views(r@) =~= all.take(i as int).map_values(|p: Seq<char>| trim(p)),
        decreases v.len() - i,
    {
        push_line(&mut r, trimmed(v[i].as_str()));
        i = i + 1;
    }
    assert(all.take(v@.len() as int) =~= all);
    r
}

/// Every address of the list is valid.
pub open spec fn all_read(v: Seq<Option<Address>>) -> bool {
    forall|i: int| 0 <= i < v.len() ==> (#[trigger] v[i]) is Some
}

/// The addresses of a list in which every one is valid.
pub open spec fn read_values(v: Seq<Option<Address>>) -> Seq<Address> {
    v.map_values(|a: Option<Address>| a->0)
}

fn all_addresses(v: Vec<Option<Address>>) -> (r: Option<Vec<Address>>)
    ensures
        match r {
            Some(l) => all_read(v@) && l@ == read_values(v@),
            None => !all_read(v@),
        },
{
    let ghost all = v@;
    let mut rest = v;
    let mut l: Vec<Address> = Vec::new();
    while rest.len() > 0
        invariant
            all == v@,
            rest@.len() + l@.len() == all.len(),
            rest@ =~= all.skip(l@.len() as int),
            l@ =~= read_values(all.take(l@.len() as int)),
            all_read(all.take(l@.len() as int)),
        decreases rest.len(),
    {
        let ghost n = l@.len() as int;
        let one = rest.remove(0);
        assert(one == all[n]);
        match one {
            Some(a) => {
                assert(all_read(all.take(n + 1))) by {
                    assert forall|i: int| 0 <= i < n + 1 implies (#[trigger] all.take(n + 1)[i]) is Some by {
                        if i < n {
                            assert(all.take(n)[i] is Some);
                        }
                    }
                }
                l.push(a);
            },
            None => {
                assert(!all_read(all)) by {
                    assert(all[n] is None);
                }
                return None;
            },
        }
    }
    assert(all.take(all.len() as int) =~= all);
    Some(l)
}

/// Why a peer cannot be made.
pub open spec fn peer_error(
    tunnel_id: Seq<char>,
    q: CreateWgPeerRequest,
    ips: Seq<Option<Address>>,
    generated: Option<(String, String)>,
) -> Option<Status> {
    if uuid_text(tunnel_id) is None || !all_read(ips) {
        Some(Status::BadRequest)
    } else if q.auto_generate_key == Some(true) {
        if generated is None {
            Some(Status::Internal)
        } else {
            None
        }
    } else if q.public_key is None || q.public_key->0@.len() == 0 {
        Some(Status::BadRequest)
    } else {
        None
    }
}

/// A new peer of the tunnel `tunnel_id`: `ips` is what the firewall makes of the addresses, and
/// `generated` a new private key with its public key.
pub fn create_wg_peer(
    tunnel_id: &str,
    q: CreateWgPeerRequest,
    ips: Vec<Option<Address>>,
    generated: Option<(String, String)>,
) -> (r: Result<WgPeer, Status>)
    ensures
        match r {
            Ok(p) => {
                &&& peer_error(tunnel_id@, q, ips@, generated) is None
                &&& p.name@ == (match q.name {
                    Some(n) => n@,
                    None => ""@,
                })
                &&& p.allowed_ips@ == read_values(ips@)
                &&& p.endpoint == q.endpoint
                &&& p.persistent_keepalive == q.keepalive
                &&& p.preshared_key == q.preshared_key
                &&& if q.auto_generate_key == Some(true) {
                    generated == Some((p.private_key->0, p.public_key)) && p.private_key is Some
                } else {
                    Some(p.public_key) == q.public_key && p.private_key is None
                }
            },
            Err(e) => peer_error(tunnel_id@, q, ips@, generated) == Some(e),
        },
{
    match require_uuid(tunnel_id) {
        Ok(_) => {},
        Err(e) => {
            return Err(e);
        },
    }
    let allowed_ips = match all_addresses(ips) {
        Some(l) => l,
        None => {
            return Err(Status::BadRequest);
        },
    };
    let automatic = match q.auto_generate_key {
        Some(b) => b,
        None => false,
    };
    let (private_key, public_key) = if automatic {
        match generated {
            Some((k, p)) => (Some(k), p),
            None => {
                return Err(Status::Internal);
            },
        }
    } else {
        match q.public_key {
            Some(p) => {
                if p.as_str().is_empty() {
                    return Err(Status::BadRequest);
                }
                (None, p)
            },
            None => {
                return Err(Status::BadRequest);
            },
        }
    };
    let name = match q.name {
        Some(n) => n,
        None => "".to_owned(),
    };
    Ok(
        WgPeer {
            name,
            public_key,
            private_key,
            preshared_key: q.preshared_key,
            endpoint: q.endpoint,
            allowed_ips,
            persistent_keepalive: q.keepalive,
        },
    )
}

/// A text of a request: an empty one takes back what there was.
pub open spec fn set_or_cleared(new: Option<String>, old: Option<String>) -> Option<String> {
    match new {
        Some(t) => if t@.len() == 0 {
            None
        } else {
            Some(t)
        },
        None => old,
    }
}

/// A number of a request: zero takes back what there was.
pub open spec fn number_or_cleared(new: Option<u16>, old: Option<u16>) -> Option<u16> {
    match new {
        Some(n) => if n == 0 {
            None
        } else {
            Some(n)
        },
        None => old,
    }
}

fn set_or_clear(new: Option<String>, old: Option<String>) -> (r: Option<String>)
    ensures
        r == set_or_cleared(new, old),
{
    match new {
        Some(t) => if t.as_str().is_empty() {
            None
        } else {
            Some(t)
        },
        None => old,
    }
}

/// A peer with what is to be changed: `current` is what the engine found under
/// the identifier, and `ips` what the firewall makes of the addresses, where
/// the request gives some.
pub fn update_wg_peer(id: &str, current: Option<WgPeer>, q: UpdateWgPeerRequest, ips: Vec<Option<Address>>) -> (r: Result<
    WgPeer,
    Status,
>)
    ensures
        match r {
            Ok(n) => {
                let p = current->0;
                &&& change_error(id@, current is Some, q.allowed_ips is Some ==> all_read(ips@)) is None
                &&& n.name == picked(q.name, p.name)
                &&& n.endpoint == set_or_cleared(q.endpoint, p.endpoint)
                &&& n.allowed_ips@ == (if q.allowed_ips is Some {
                    read_values(ips@)
                } else {
                    p.allowed_ips@
                })
                &&& n.persistent_keepalive == number_or_cleared(q.keepalive, p.persistent_keepalive)
                &&& n.preshared_key == set_or_cleared(q.preshared_key, p.preshared_key)
                &&& n.public_key == p.public_key
                &&& n.private_key == p.private_key
            },
            Err(e) => change_error(id@, current is Some, q.allowed_ips is Some ==> all_read(ips@)) == Some(e),
        },
{
    match require_uuid(id) {
        Ok(_) => {},
        Err(e) => {
            return Err(e);
        },
    }
    let p = match current {
        Some(p) => p,
        None => {
            return Err(Status::NotFound);
        },
    };
    let allowed_ips = match q.allowed_ips {
        Some(_) => match all_addresses(ips) {
            Some(l) => l,
            None => {
                return Err(Status::BadRequest);
            },
        },
        None => p.allowed_ips,
    };
    let name = match q.name {
        Some(n) => n,
        None => p.name,
    };
    let persistent_keepalive = match q.keepalive {
        Some(n) => if n == 0 {
            None
        } else {
            Some(n)
        },
        None => p.persistent_keepalive,
    };
    Ok(
        WgPeer {
            name,
            public_key: p.public_key,
            private_key: p.private_key,
            preshared_key: set_or_clear(q.preshared_key, p.preshared_key),
            endpoint: set_or_clear(q.endpoint, p.endpoint),
            allowed_ips,
            persistent_keepalive,
        },
    )
}

/// The line gives an address.
pub open spec fn gives_address(line: Seq<char>) -> bool {
    has_prefix(trim(line), "inet "@) && words(trim(line).skip("inet "@.len() as int)).len() > 0
}

/// The address in the first line that gives one.
pub open spec fn first_address(ls: Seq<Seq<char>>) -> Option<Seq<char>>
    decreases ls.len(),
{
    if ls.len() == 0 {
        None
    } else if gives_address(ls[0]) {
        Some(words(trim(ls[0]).skip("inet "@.len() as int))[0])
    } else {
        first_address(ls.skip(1))
    }
}

/// The address of an interface, out of what `ifconfig` prints of it.
pub fn get_wan_ip(printed: &str) -> (r: Option<String>)
    ensures
        option_view(r) == first_address(lines(printed@)),
{
    let ls = lines_of(printed);
    let ghost all = views(ls@);
    let mut i: usize = 0;
    assert(all.skip(0) =~= all);
    while i < ls.len()
        invariant
            i <= ls@.len(),
            all == views(ls@),
            all == lines(printed@),
            first_address(all) == first_address(all.skip(i as int)),
        decreases ls.len() - i,
    {
        assert(all.skip(i as int).skip(1) =~= all.skip(i + 1));
        assert(all.skip(i as int)[0] == ls@[i as int]@);
        let line = trimmed(ls[i].as_str());
        match strip_prefix(line.as_str(), "inet ") {
            Some(rest) => {
                let w = words_of(rest.as_str());
                assert(views(w@).len() == w@.len());
                if w.len() > 0 {
                    assert(views(w@)[0] == w@[0]@);
                    return Some(w[0].clone());
                }
            },
            None => {},
        }
        i = i + 1;
    }
    None
}

/// Where a peer reaches the server: at the address of the outer interface
/// where that is known, else at the tunnel's own, without its prefix.
pub fn server_endpoint(wan_ip: Option<String>, tunnel_address: &str) -> (r: String)
    ensures
        r@ == (match wan_ip {
            Some(ip) => ip@,
            None => split(tunnel_address@, '/')[0],
        }),
{
    match wan_ip {
        Some(ip) => ip,
        None => {
            let v = split_text(tunnel_address, '/');
            proof {
                crate::text::split_pieces(tunnel_address@, '/');
                assert(views(v@).len() == v@.len());
                assert(views(v@)[0] == v@[0]@);
            }
            v[0].clone()
        },
    }
}

// ---------------------------------------------------------------------------
// IPsec
// ---------------------------------------------------------------------------

/// A record of an earlier version, which carries no traffic and says so.
#[derive(Clone, Debug)]
pub struct LegacyIpsecSa {
    pub sa: IpsecSaConfig,
    /// Always true.
    pub legacy: bool,
}

/// The records of an earlier version.
pub fn list_ipsec_sas(sas: Vec<IpsecSaConfig>) -> (r: Vec<LegacyIpsecSa>)
    ensures
        r@.len() == sas@.len(),
        forall|i: int| 0 <= i < r@.len() ==> (#[trigger] r@[i]).sa == sas@[i] && r@[i].legacy,
{
    let ghost all = sas@;
    let mut rest = sas;
    let mut r: Vec<LegacyIpsecSa> = Vec::new();
    while rest.len() > 0
        invariant
            rest@.len() + r@.len() == all.len(),
            rest@ =~= all.skip(r@.len() as int),
            forall|i: int| 0 <= i < r@.len() ==> (#[trigger] r@[i]).sa == all[i] && r@[i].legacy,
        decreases rest.len(),
    {
        let sa = rest.remove(0);
        assert(sa == all[r@.len() as int]);
        r.push(LegacyIpsecSa { sa, legacy: true });
    }
    r
}

/// No more such records are made.
pub fn create_ipsec_sa_gone() -> (r: Refusal)
    ensures
        r.status == Status::Gone,
        r.message@ == "legacy IPsec SA records are read-only; use /api/v1/vpn/ipsec/tunnels"@,
{
    refuse(
        Status::Gone,
        "legacy IPsec SA records are read-only; use /api/v1/vpn/ipsec/tunnels".to_owned(),
    )
}

/// The answer to a request on which the engine failed.
pub fn ipsec_err(e: EngineFailure) -> (r: Refusal)
    ensures
        r.status == kind_status(e.kind),
        r.message == e.text,
{
    engine_refusal(e)
}

/// A bad request, and why.
pub fn ipsec_bad_request(msg: &str) -> (r: Refusal)
    ensures
        r.status == Status::BadRequest,
        r.message@ == msg@,
{
    refuse(Status::BadRequest, msg.to_owned())
}

/// A tunnel that is to be made or changed.
#[derive(Clone, Debug)]
pub struct IpsecTunnelRequest {
    pub name: String,
    pub remote_addr: String,
    pub local_ts: Vec<String>,
    pub remote_ts: Vec<String>,
    pub enabled: Option<bool>,
    pub local_addr: Option<String>,
    pub local_id: Option<String>,
    pub remote_id: Option<String>,
    pub auth_method: Option<String>,
    pub psk: Option<String>,
    pub cert_source: Option<String>,
    pub acme_cert_id: Option<i64>,
    pub local_cert_pem: Option<String>,
    pub local_key_pem: Option<String>,
    pub ca_cert_pem: Option<String>,
    pub ike_proposal: Option<String>,
    pub esp_proposal: Option<String>,
    pub ike_lifetime_secs: Option<u32>,
    pub esp_lifetime_secs: Option<u32>,
    pub dpd_delay_secs: Option<u32>,
    pub start_action: Option<String>,
}

/// What the firewall makes of the words in a request. Each counts only where
/// the request has the word.
#[derive(Debug)]
pub struct IpsecReadings {
    pub auth_method: Result<IpsecAuthMethod, EngineFailure>,
    pub cert_source: Result<String, EngineFailure>,
    pub start_action: Result<String, EngineFailure>,
}

/// The secret after a request: what is shown in its place stands for the one
/// that is stored.
pub open spec fn kept_secret(new: Option<String>, old: String) -> String {
    match new {
        Some(s) => if s@ == "REDACTED"@ {
            old
        } else {
            s
        },
        None => old,
    }
}

/// How the ends prove who they are, after a valid request.
pub open spec fn auth_after(t: IpsecTunnel, q: IpsecTunnelRequest, v: IpsecReadings) -> IpsecAuthMethod {
    if q.auth_method is Some {
        v.auth_method->Ok_0
    } else {
        t.auth_method
    }
}

/// Where the certificate comes from, after a valid request: an empty word
/// takes it back.
pub open spec fn source_after(t: IpsecTunnel, q: IpsecTunnelRequest, v: IpsecReadings) -> Option<String> {
    match q.cert_source {
        Some(s) => if s@.len() == 0 {
            None
        } else {
            Some(v.cert_source->Ok_0)
        },
        None => t.cert_source,
    }
}

/// What becomes of the tunnel.
pub open spec fn merged_tunnel(t: IpsecTunnel, q: IpsecTunnelRequest, v: IpsecReadings) -> IpsecTunnel {
    IpsecTunnel {
        id: t.id,
        name: q.name,
        enabled: picked(q.enabled, t.enabled),
        local_addr: picked(q.local_addr, t.local_addr),
        remote_addr: q.remote_addr,
        local_id: picked(q.local_id, t.local_id),
        remote_id: picked(q.remote_id, t.remote_id),
        local_ts: q.local_ts,
        remote_ts: q.remote_ts,
        auth_method: auth_after(t, q, v),
        psk: kept_secret(q.psk, t.psk),
        cert_source: source_after(t, q, v),
        acme_cert_id: either(q.acme_cert_id, t.acme_cert_id),
        local_cert_pem: picked(q.local_cert_pem, t.local_cert_pem),
        local_key_pem: kept_secret(q.local_key_pem, t.local_key_pem),
        ca_cert_pem: picked(q.ca_cert_pem, t.ca_cert_pem),
        ike_proposal: picked(q.ike_proposal, t.ike_proposal),
        esp_proposal: picked(q.esp_proposal, t.esp_proposal),
        ike_lifetime_secs: picked(q.ike_lifetime_secs, t.ike_lifetime_secs),
        esp_lifetime_secs: picked(q.esp_lifetime_secs, t.esp_lifetime_secs),
        dpd_delay_secs: picked(q.dpd_delay_secs, t.dpd_delay_secs),
        start_action: if q.start_action is Some {
            v.start_action->Ok_0
        } else {
            t.start_action
        },
    }
}

/// The word for how the ends prove who they are is wrong.
pub open spec fn auth_fails(q: IpsecTunnelRequest, v: IpsecReadings) -> bool {
    q.auth_method is Some && v.auth_method is Err
}

/// The word for where the certificate comes from is wrong.
pub open spec fn source_fails(q: IpsecTunnelRequest, v: IpsecReadings) -> bool {
    q.cert_source is Some && q.cert_source->0@.len() > 0 && v.cert_source is Err
}

/// The word for how the tunnel starts is wrong.
pub open spec fn start_fails(q: IpsecTunnelRequest, v: IpsecReadings) -> bool {
    q.start_action is Some && v.start_action is Err
}

/// `e` answers the failure `f`.
pub open spec fn answers(e: Refusal, f: EngineFailure) -> bool {
    e.status == kind_status(f.kind) && e.message == f.text
}

fn or_keep<T>(new: Option<T>, old: T) -> (r: T)
    ensures
        r == picked(new, old),
{
    match new {
        Some(x) => x,
        None => old,
    }
}

fn keep_secret(new: Option<String>, old: String) -> (r: String)
    ensures
        r == kept_secret(new, old),
{
    match new {
        Some(s) => if same(s.as_str(), "REDACTED") {
            old
        } else {
            s
        },
        None => old,
    }
}

/// The tunnel with what a request asks for. What the request leaves out stays
/// as it is, and so does a secret that comes back as it was shown. A tunnel
/// that proves itself by certificate needs to know where that comes from.
pub fn apply_tunnel_request(t: IpsecTunnel, q: IpsecTunnelRequest, v: IpsecReadings) -> (r: Result<IpsecTunnel, Refusal>)
    ensures
        if auth_fails(q, v) {
            r matches Err(e) && answers(e, v.auth_method->Err_0)
        } else if source_fails(q, v) {
            r matches Err(e) && answers(e, v.cert_source->Err_0)
        } else if start_fails(q, v) {
            r matches Err(e) && answers(e, v.start_action->Err_0)
        } else if auth_after(t, q, v) == IpsecAuthMethod::Cert && source_after(t, q, v) is None {
            r matches Err(e) && e.status == Status::BadRequest && e.message@ == "cert auth requires cert_source"@
        } else {
            r == Ok::<IpsecTunnel, Refusal>(merged_tunnel(t, q, v))
        },
{
    let auth_method = match q.auth_method {
        Some(_) => match v.auth_method {
            Ok(m) => m,
            Err(f) => {
                return Err(ipsec_err(f));
            },
        },
        None => t.auth_method,
    };
    let cert_source = match q.cert_source {
        Some(s) => if s.as_str().is_empty() {
            None
        } else {
            match v.cert_source {
                Ok(c) => Some(c),
                Err(f) => {
                    return Err(ipsec_err(f));
                },
            }
        },
        None => t.cert_source,
    };
    let start_action = match q.start_action {
        Some(_) => match v.start_action {
            Ok(a) => a,
            Err(f) => {
                return Err(ipsec_err(f));
            },
        },
        None => t.start_action,
    };
    if auth_method == IpsecAuthMethod::Cert && cert_source.is_none() {
        return Err(ipsec_bad_request("cert auth requires cert_source"));
    }
    let acme_cert_id = match q.acme_cert_id {
        Some(n) => Some(n),
        None => t.acme_cert_id,
    };
    Ok(
        IpsecTunnel {
            id: t.id,
            name: q.name,
            enabled: or_keep(q.enabled, t.enabled),
            local_addr: or_keep(q.local_addr, t.local_addr),
            remote_addr: q.remote_addr,
            local_id: or_keep(q.local_id, t.local_id),
            remote_id: or_keep(q.remote_id, t.remote_id),
            local_ts: q.local_ts,
            remote_ts: q.remote_ts,
            auth_method,
            psk: keep_secret(q.psk, t.psk),
            cert_source,
            acme_cert_id,
            local_cert_pem: or_keep(q.local_cert_pem, t.local_cert_pem),
            local_key_pem: keep_secret(q.local_key_pem, t.local_key_pem),
            ca_cert_pem: or_keep(q.ca_cert_pem, t.ca_cert_pem),
            ike_proposal: or_keep(q.ike_proposal, t.ike_proposal),
            esp_proposal: or_keep(q.esp_proposal, t.esp_proposal),
            ike_lifetime_secs: or_keep(q.ike_lifetime_secs, t.ike_lifetime_secs),
            esp_lifetime_secs: or_keep(q.esp_lifetime_secs, t.esp_lifetime_secs),
            dpd_delay_secs: or_keep(q.dpd_delay_secs, t.dpd_delay_secs),
            start_action,
        },
    )
}

/// A request that sends the secrets back as they were shown, or leaves them
/// out, changes neither of them.
pub proof fn shown_secrets_stay(t: IpsecTunnel, q: IpsecTunnelRequest, v: IpsecReadings)
    requires
        q.psk is None || q.psk->0@ == "REDACTED"@,
        q.local_key_pem is None || q.local_key_pem->0@ == "REDACTED"@,
    ensures
        merged_tunnel(t, q, v).psk == t.psk,
        merged_tunnel(t, q, v).local_key_pem == t.local_key_pem,
{
}

/// What is answered once a tunnel was to be deleted.
pub fn delete_wg_tunnel(id: &str, deleted: bool) -> (r: Result<MessageResponse, Status>)
    ensures
        said(r) == change_answer(id@, deleted, Status::NotFound, "WG tunnel "@ + id@ + " deleted"@),
{
    answer_change(id, deleted, Status::NotFound, cat3("WG tunnel ", id, " deleted"))
}

/// What is answered once a tunnel was to be started.
pub fn start_wg_tunnel(id: &str, started: bool) -> (r: Result<MessageResponse, Status>)
    ensures
        said(r) == change_answer(id@, started, Status::Internal, "Tunnel started"@),
{
    answer_change(id, started, Status::Internal, "Tunnel started".to_owned())
}

/// What is answered once a tunnel was to be stopped.
pub fn stop_wg_tunnel(id: &str, stopped: bool) -> (r: Result<MessageResponse, Status>)
    ensures
        said(r) == change_answer(id@, stopped, Status::Internal, "Tunnel stopped"@),
{
    answer_change(id, stopped, Status::Internal, "Tunnel stopped".to_owned())
}

/// What is answered once a peer was to be deleted.
pub fn delete_wg_peer(id: &str, deleted: bool) -> (r: Result<MessageResponse, Status>)
    ensures
        said(r) == change_answer(id@, deleted, Status::NotFound, "WG peer "@ + id@ + " deleted"@),
{
    answer_change(id, deleted, Status::NotFound, cat3("WG peer ", id, " deleted"))
}

/// What is answered once a record of an earlier version was to be deleted.
pub fn delete_ipsec_sa(id: &str, deleted: bool) -> (r: Result<MessageResponse, Status>)
    ensures
        said(r) == change_answer(id@, deleted, Status::NotFound, "IPsec SA "@ + id@ + " deleted"@),
{
    answer_change(id, deleted, Status::NotFound, cat3("IPsec SA ", id, " deleted"))
}

/// The answer to a request on the IPsec tunnel `id`, with its words: what is no
/// identifier is a bad request, and a failure of the engine is answered as such.
pub open spec fn tunnel_answer(id: Seq<char>, done: Result<(), EngineFailure>, text: Seq<char>, r: Result<
    MessageResponse,
    Refusal,
>) -> bool {
    if uuid_text(id) is None {
        r matches Err(e) && e.status == Status::BadRequest && e.message@ == "invalid tunnel id"@
    } else {
        match done {
            Ok(_) => r matches Ok(m) && m.message@ == text,
            Err(f) => r matches Err(e) && e.status == kind_status(f.kind) && e.message == f.text,
        }
    }
}

fn answer_tunnel(id: &str, done: Result<(), EngineFailure>, message: String) -> (r: Result<MessageResponse, Refusal>)
    ensures
        tunnel_answer(id@, done, message@, r),
{
    match require_uuid(id) {
        Err(_) => Err(ipsec_bad_request("invalid tunnel id")),
        Ok(_) => match done {
            Ok(_) => Ok(MessageResponse { message }),
            Err(f) => Err(ipsec_err(f)),
        },
    }
}

/// What is answered once an IPsec tunnel was to be deleted.
pub fn delete_ipsec_tunnel(id: &str, done: Result<(), EngineFailure>) -> (r: Result<MessageResponse, Refusal>)
    ensures
        tunnel_answer(id@, done, "IPsec tunnel "@ + id@ + " deleted"@, r),
{
    answer_tunnel(id, done, cat3("IPsec tunnel ", id, " deleted"))
}

/// What is answered once an IPsec tunnel was to be started.
pub fn start_ipsec_tunnel(id: &str, done: Result<(), EngineFailure>) -> (r: Result<MessageResponse, Refusal>)
    ensures
        tunnel_answer(id@, done, "Tunnel initiated"@, r),
{
    answer_tunnel(id, done, "Tunnel initiated".to_owned())
}

/// What is answered once an IPsec tunnel was to be stopped.
pub fn stop_ipsec_tunnel(id: &str, done: Result<(), EngineFailure>) -> (r: Result<MessageResponse, Refusal>)
    ensures
        tunnel_answer(id@, done, "Tunnel terminated"@, r),
{
    answer_tunnel(id, done, "Tunnel terminated".to_owned())
}

// ---------------------------------------------------------------------------
// Laws
// ---------------------------------------------------------------------------

/// A changed tunnel goes by the request: its name, the address of its peer and the networks
/// behind either end are those of the request, each in its own place.
pub proof fn tunnel_gets_what_is_asked(t: IpsecTunnel, q: IpsecTunnelRequest, v: IpsecReadings)
    ensures
        merged_tunnel(t, q, v).name == q.name,
        merged_tunnel(t, q, v).remote_addr == q.remote_addr,
        merged_tunnel(t, q, v).local_ts == q.local_ts,
        merged_tunnel(t, q, v).remote_ts == q.remote_ts,
{
}

/// What a request leaves out stays as it was, and what it gives is taken over.
pub proof fn tunnel_keeps_what_is_not_asked(t: IpsecTunnel, q: IpsecTunnelRequest, v: IpsecReadings)
    ensures
        merged_tunnel(t, q, v).id == t.id,
        q.enabled is None ==> merged_tunnel(t, q, v).enabled == t.enabled,
        q.enabled is Some ==> merged_tunnel(t, q, v).enabled == q.enabled->0,
        q.local_addr is None ==> merged_tunnel(t, q, v).local_addr == t.local_addr,
        q.local_addr is Some ==> merged_tunnel(t, q, v).local_addr == q.local_addr->0,
        q.local_id is None ==> merged_tunnel(t, q, v).local_id == t.local_id,
        q.local_id is Some ==> merged_tunnel(t, q, v).local_id == q.local_id->0,
        q.remote_id is None ==> merged_tunnel(t, q, v).remote_id == t.remote_id,
        q.remote_id is Some ==> merged_tunnel(t, q, v).remote_id == q.remote_id->0,
        q.local_cert_pem is None ==> merged_tunnel(t, q, v).local_cert_pem == t.local_cert_pem,
        q.local_cert_pem is Some ==> merged_tunnel(t, q, v).local_cert_pem == q.local_cert_pem->0,
        q.ca_cert_pem is None ==> merged_tunnel(t, q, v).ca_cert_pem == t.ca_cert_pem,
        q.ca_cert_pem is Some ==> merged_tunnel(t, q, v).ca_cert_pem == q.ca_cert_pem->0,
        q.ike_proposal is None ==> merged_tunnel(t, q, v).ike_proposal == t.ike_proposal,
        q.ike_proposal is Some ==> merged_tunnel(t, q, v).ike_proposal == q.ike_proposal->0,
        q.esp_proposal is None ==> merged_tunnel(t, q, v).esp_proposal == t.esp_proposal,
        q.esp_proposal is Some ==> merged_tunnel(t, q, v).esp_proposal == q.esp_proposal->0,
        q.ike_lifetime_secs is None ==> merged_tunnel(t, q, v).ike_lifetime_secs == t.ike_lifetime_secs,
        q.ike_lifetime_secs is Some ==> merged_tunnel(t, q, v).ike_lifetime_secs == q.ike_lifetime_secs->0,
        q.esp_lifetime_secs is None ==> merged_tunnel(t, q, v).esp_lifetime_secs == t.esp_lifetime_secs,
        q.esp_lifetime_secs is Some ==> merged_tunnel(t, q, v).esp_lifetime_secs == q.esp_lifetime_secs->0,
        q.dpd_delay_secs is None ==> merged_tunnel(t, q, v).dpd_delay_secs == t.dpd_delay_secs,
        q.dpd_delay_secs is Some ==> merged_tunnel(t, q, v).dpd_delay_secs == q.dpd_delay_secs->0,
        q.acme_cert_id is None ==> merged_tunnel(t, q, v).acme_cert_id == t.acme_cert_id,
        q.acme_cert_id is Some ==> merged_tunnel(t, q, v).acme_cert_id == q.acme_cert_id,
{
}

/// The way of authenticating, the source of the certificate and the action at the start are
/// those that were read from the request, or stay; an empty source takes it away.
pub proof fn tunnel_gets_what_was_read(t: IpsecTunnel, q: IpsecTunnelRequest, v: IpsecReadings)
    ensures
        q.auth_method is None ==> merged_tunnel(t, q, v).auth_method == t.auth_method,
        q.auth_method is Some ==> (v.auth_method matches Ok(a) ==> merged_tunnel(t, q, v).auth_method == a),
        q.cert_source is None ==> merged_tunnel(t, q, v).cert_source == t.cert_source,
        q.cert_source matches Some(s) ==> s@.len() == 0 ==> merged_tunnel(t, q, v).cert_source is None,
        q.cert_source matches Some(s) ==> s@.len() > 0 ==> (v.cert_source matches Ok(c)
            ==> merged_tunnel(t, q, v).cert_source == Some(c)),
        q.start_action is None ==> merged_tunnel(t, q, v).start_action == t.start_action,
        q.start_action is Some ==> (v.start_action matches Ok(a) ==> merged_tunnel(t, q, v).start_action == a),
{
}

/// A secret that is not the mark of a hidden one replaces the stored one.
pub proof fn new_secrets_are_taken(t: IpsecTunnel, q: IpsecTunnelRequest, v: IpsecReadings)
    ensures
        q.psk matches Some(s) ==> s@ != "REDACTED"@ ==> merged_tunnel(t, q, v).psk == s,
        q.local_key_pem matches Some(s) ==> s@ != "REDACTED"@ ==> merged_tunnel(t, q, v).local_key_pem == s,
{
}

/// Of two requests, one after the other, the second decides wherever it says something, and
/// the first where the second is silent.
pub proof fn second_request_undoes_the_first(t: IpsecTunnel, p: IpsecTunnelRequest, q: IpsecTunnelRequest,
    v: IpsecReadings, w: IpsecReadings)
    ensures
        merged_tunnel(merged_tunnel(t, p, v), q, w).local_ts == q.local_ts,
        merged_tunnel(merged_tunnel(t, p, v), q, w).remote_ts == q.remote_ts,
        q.enabled is Some ==> merged_tunnel(merged_tunnel(t, p, v), q, w).enabled == q.enabled->0,
        q.enabled is None ==> p.enabled is Some ==> merged_tunnel(merged_tunnel(t, p, v), q, w).enabled == p.enabled->0,
        q.local_addr is Some ==> merged_tunnel(merged_tunnel(t, p, v), q, w).local_addr == q.local_addr->0,
        q.local_addr is None ==> p.local_addr is Some
            ==> merged_tunnel(merged_tunnel(t, p, v), q, w).local_addr == p.local_addr->0,
        q.local_id is Some ==> merged_tunnel(merged_tunnel(t, p, v), q, w).local_id == q.local_id->0,
        q.local_id is None ==> p.local_id is Some
            ==> merged_tunnel(merged_tunnel(t, p, v), q, w).local_id == p.local_id->0,
        q.remote_id is Some ==> merged_tunnel(merged_tunnel(t, p, v), q, w).remote_id == q.remote_id->0,
        q.remote_id is None ==> p.remote_id is Some
            ==> merged_tunnel(merged_tunnel(t, p, v), q, w).remote_id == p.remote_id->0,
        q.local_cert_pem is Some ==> merged_tunnel(merged_tunnel(t, p, v), q, w).local_cert_pem == q.local_cert_pem->0,
        q.local_cert_pem is None ==> p.local_cert_pem is Some
            ==> merged_tunnel(merged_tunnel(t, p, v), q, w).local_cert_pem == p.local_cert_pem->0,
        q.ca_cert_pem is Some ==> merged_tunnel(merged_tunnel(t, p, v), q, w).ca_cert_pem == q.ca_cert_pem->0,
        q.ca_cert_pem is None ==> p.ca_cert_pem is Some
            ==> merged_tunnel(merged_tunnel(t, p, v), q, w).ca_cert_pem == p.ca_cert_pem->0,
        q.ike_proposal is Some ==> merged_tunnel(merged_tunnel(t, p, v), q, w).ike_proposal == q.ike_proposal->0,
        q.ike_proposal is None ==> p.ike_proposal is Some
            ==> merged_tunnel(merged_tunnel(t, p, v), q, w).ike_proposal == p.ike_proposal->0,
        q.esp_proposal is Some ==> merged_tunnel(merged_tunnel(t, p, v), q, w).esp_proposal == q.esp_proposal->0,
        q.esp_proposal is None ==> p.esp_proposal is Some
            ==> merged_tunnel(merged_tunnel(t, p, v), q, w).esp_proposal == p.esp_proposal->0,
        q.ike_lifetime_secs is Some ==> merged_tunnel(merged_tunnel(t, p, v), q,
            w).ike_lifetime_secs == q.ike_lifetime_secs->0,
        q.ike_lifetime_secs is None ==> p.ike_lifetime_secs is Some
            ==> merged_tunnel(merged_tunnel(t, p, v), q, w).ike_lifetime_secs == p.ike_lifetime_secs->0,
        q.esp_lifetime_secs is Some ==> merged_tunnel(merged_tunnel(t, p, v), q,
            w).esp_lifetime_secs == q.esp_lifetime_secs->0,
        q.esp_lifetime_secs is None ==> p.esp_lifetime_secs is Some
            ==> merged_tunnel(merged_tunnel(t, p, v), q, w).esp_lifetime_secs == p.esp_lifetime_secs->0,
        q.dpd_delay_secs is Some ==> merged_tunnel(merged_tunnel(t, p, v), q, w).dpd_delay_secs == q.dpd_delay_secs->0,
        q.dpd_delay_secs is None ==> p.dpd_delay_secs is Some
            ==> merged_tunnel(merged_tunnel(t, p, v), q, w).dpd_delay_secs == p.dpd_delay_secs->0,
{
}

/// A word that cannot be read refuses a request only where the request gives it; an empty
/// source is not read at all.
pub proof fn only_given_words_are_refused(q: IpsecTunnelRequest, v: IpsecReadings)
    ensures
        q.auth_method is None ==> !auth_fails(q, v),
        q.cert_source is None ==> !source_fails(q, v),
        q.start_action is None ==> !start_fails(q, v),
        v.auth_method is Ok ==> !auth_fails(q, v),
        v.cert_source is Ok ==> !source_fails(q, v),
        v.start_action is Ok ==> !start_fails(q, v),
        q.cert_source matches Some(s) ==> s@.len() == 0 ==> !source_fails(q, v),
        q.cert_source matches Some(s) ==> s@.len() > 0 ==> v.cert_source is Err ==> source_fails(q, v),
        q.auth_method is Some && v.auth_method is Err ==> auth_fails(q, v),
        q.start_action is Some && v.start_action is Err ==> start_fails(q, v),
{
}

/// A failure of the engine is answered with its own words and the status of its kind.
pub proof fn engine_failures_are_passed_on(e: Refusal, f: EngineFailure)
    ensures
        answers(e, f) ==> e.message@ == f.text@,
        answers(e, f) ==> e.status == kind_status(f.kind),
{
}

/// A request on what is no identifier is a bad request, whatever came of it; any other is
/// answered with its words where it was done and with the failure where it was not.
pub proof fn tunnel_answers(id: Seq<char>, done: Result<(), EngineFailure>, text: Seq<char>,
    r: Result<MessageResponse, Refusal>)
    requires
        tunnel_answer(id, done, text, r),
    ensures
        uuid_text(id) is None ==> r is Err && r->Err_0.status == Status::BadRequest
            && r->Err_0.message@ == "invalid tunnel id"@,
        uuid_text(id) is Some && done is Ok ==> r is Ok && r->Ok_0.message@ == text,
        uuid_text(id) is Some && done is Err ==> r is Err && r->Err_0.status == kind_status(done->Err_0.kind)
            && r->Err_0.message == done->Err_0.text,
{
}

/// A text counts where something is left of it without the white space around it, and then
/// that is what counts.
pub proof fn blank_texts_are_none(s: Seq<char>)
    ensures
        unless_blank(None) is None,
        unless_blank(Some(s)) is None <==> trim(s) =~= Seq::<char>::empty(),
        unless_blank(Some(s)) matches Some(t) ==> t == trim(s) && t.len() > 0,
{
}

/// A new WireGuard tunnel holds what was asked for, each value in its own place; blank
/// addresses and routes are none.
pub proof fn new_tunnel_goes_by_its_request(t: WgTunnel, q: CreateWgTunnelRequest, v: WgReadings)
    requires
        is_wg_requested(t, q, v),
    ensures
        t.name == q.name,
        t.listen_port == q.listen_port,
        v.address == Some(t.address),
        t.dns == q.dns,
        t.mtu == q.mtu,
        t.listen_interface == q.listen_interface,
        q.address6 is None ==> t.address6 is None,
        q.address6 matches Some(a) ==> trim(a@).len() == 0 ==> t.address6 is None,
        q.address6 matches Some(a) ==> trim(a@).len() > 0 ==> t.address6 == v.address6,
        q.split_routes is None ==> t.split_routes is None,
        q.split_routes matches Some(a) ==> trim(a@).len() == 0 ==> t.split_routes is None,
        q.split_routes matches Some(a) ==> trim(a@).len() > 0 ==> t.split_routes is Some
            && t.split_routes->0@ == trim(a@),
{
}

/// A new tunnel whose address cannot be read is a bad request, and so is one whose address in
/// IPv6 is given and cannot be read, or whose key gives no public one; where no keys
/// can be made the server has failed. Nothing else refuses it.
pub proof fn new_tunnel_is_refused_for_a_reason(q: CreateWgTunnelRequest, v: WgReadings)
    ensures
        v.address is None ==> wg_create_error(q, v) == Some(Status::BadRequest),
        q.address6 matches Some(a) ==> trim(a@).len() > 0 && v.address6 is None
            ==> wg_create_error(q, v) == Some(Status::BadRequest),
        v.address is Some && (q.address6 is None || v.address6 is Some) && v.generated is None
            ==> wg_create_error(q, v) == Some(Status::Internal),
        v.generated is Some && q.private_key is Some && v.derived is None
            ==> wg_create_error(q, v) == Some(Status::BadRequest),
        v.address is Some && (q.address6 is None || v.address6 is Some) && v.generated is Some
            && (q.private_key is None || v.derived is Some) ==> wg_create_error(q, v) is None,
        q.address6 matches Some(a) ==> trim(a@).len() == 0 && v.address is Some && v.generated is Some
            && q.private_key is None ==> wg_create_error(q, v) is None,
{
}

/// A change of what is no identifier, or to what is not valid, is a bad request; one of what
/// does not exist is answered so. Any other goes through.
pub proof fn changes_are_refused_for_a_reason(id: Seq<char>, found: bool, valid: bool)
    ensures
        uuid_text(id) is None ==> change_error(id, found, valid) == Some(Status::BadRequest),
        uuid_text(id) is Some && !found ==> change_error(id, found, valid) == Some(Status::NotFound),
        uuid_text(id) is Some && found && !valid ==> change_error(id, found, valid) == Some(Status::BadRequest),
        change_error(id, found, valid) is None <==> uuid_text(id) is Some && found && valid,
{
}

/// An interface `wg` with a number behind it takes that number, and no other interface
/// takes one.
pub proof fn interfaces_have_numbers(name: Seq<char>)
    ensures
        wg_index("wg"@ + name) == parsed(name, u32::MAX as nat),
        !has_prefix(name, "wg"@) ==> wg_index(name) is None,
{
    assert(("wg"@ + name).skip("wg"@.len() as int) =~= name);
    assert(("wg"@ + name).take("wg"@.len() as int) =~= "wg"@);
}

/// There is one lowest free number: no interface takes it, and some interface takes each
/// number below.
pub proof fn lowest_free_number_is_one(names: Seq<Seq<char>>, n: int, m: int)
    ensures
        is_lowest_free(names, n) && is_lowest_free(names, m) && 0 <= n && 0 <= m ==> n == m,
        is_lowest_free(names, n) ==> forall|i: int| 0 <= i < names.len()
            ==> (wg_index(#[trigger] names[i]) matches Some(k) ==> k != n),
        is_lowest_free(names, n) && 0 <= m < n ==> exists|i: int| 0 <= i < names.len()
            && wg_index(#[trigger] names[i]) == Some(m as nat),
{
    if is_lowest_free(names, n) && is_lowest_free(names, m) && 0 <= n && 0 <= m && n != m {
        if n < m {
            assert(is_taken(names, n));
        } else {
            assert(is_taken(names, m));
        }
    }
    if is_lowest_free(names, n) {
        assert forall|i: int| 0 <= i < names.len() implies (wg_index(#[trigger] names[i]) matches Some(k)
            ==> k != n) by {
            if wg_index(names[i]) == Some(n as nat) && n >= 0 {
                assert(is_taken(names, n));
            }
        }
        if 0 <= m < n {
            assert(is_taken(names, m));
        }
    }
}

/// Addresses are given out by themselves where none are named or `auto` is.
pub proof fn automatic_addresses(s: Seq<char>)
    ensures
        is_automatic(s) <==> trim(s) =~= Seq::<char>::empty() || trim(s) =~= seq!['a', 'u', 't', 'o'],
{
    reveal_strlit("auto");
    assert("auto"@ =~= seq!['a', 'u', 't', 'o']);
}

/// The texts of the addresses are what stands between the commas, in order and without the
/// white space around it.
pub proof fn addresses_stand_between_commas(s: Seq<char>, i: int)
    ensures
        address_texts(s).len() == split(s, ',').len(),
        0 <= i < split(s, ',').len() ==> address_texts(s)[i] == trim(split(s, ',')[i]),
{
}

/// All addresses are read where none is missing, and they then stand in their order.
pub proof fn addresses_are_read_one_by_one(v: Seq<Option<Address>>, i: int)
    ensures
        0 <= i < v.len() && v[i] is None ==> !all_read(v),
        (forall|j: int| 0 <= j < v.len() ==> (#[trigger] v[j]) is Some) ==> all_read(v),
        read_values(v).len() == v.len(),
        0 <= i < v.len() ==> (v[i] matches Some(a) ==> read_values(v)[i] == a),
{
}

/// A new peer is a bad request where its tunnel is no identifier, an address cannot be read
/// or it has neither a key nor asks for one; where no keys can be made the server has
/// failed. A key that is given stands in for one that could not be made only where none
/// was asked for.
pub proof fn new_peer_is_refused_for_a_reason(tunnel_id: Seq<char>, q: CreateWgPeerRequest, ips: Seq<Option<Address>>,
    generated: Option<(String, String)>, i: int)
    ensures
        uuid_text(tunnel_id) is None ==> peer_error(tunnel_id, q, ips, generated) == Some(Status::BadRequest),
        0 <= i < ips.len() && ips[i] is None ==> peer_error(tunnel_id, q, ips, generated) == Some(Status::BadRequest),
        uuid_text(tunnel_id) is Some && all_read(ips) && q.auto_generate_key == Some(true)
            ==> (if generated is None { peer_error(tunnel_id, q, ips,
            generated) == Some(Status::Internal) } else { peer_error(tunnel_id, q, ips, generated) is None }),
        q.auto_generate_key != Some(true) && q.public_key is None
            ==> peer_error(tunnel_id, q, ips, generated) == Some(Status::BadRequest),
        q.auto_generate_key != Some(true) ==> (q.public_key matches Some(k) ==> k@ =~= Seq::<char>::empty()
            ==> peer_error(tunnel_id, q, ips, generated) == Some(Status::BadRequest)),
        q.auto_generate_key != Some(true) && uuid_text(tunnel_id) is Some && all_read(ips)
            ==> (q.public_key matches Some(k) ==> k@.len() > 0 ==> peer_error(tunnel_id, q, ips, generated) is None),
{
}

/// What is not given stays, an empty text and a zero clear, and anything else is taken over.
pub proof fn values_are_set_or_cleared(t: String, n: u16, old_text: Option<String>, old_number: Option<u16>)
    ensures
        set_or_cleared(None, old_text) == old_text,
        t@.len() == 0 ==> set_or_cleared(Some(t), old_text) is None,
        t@.len() > 0 ==> set_or_cleared(Some(t), old_text) == Some(t),
        number_or_cleared(None, old_number) == old_number,
        number_or_cleared(Some(0), old_number) is None,
        n > 0 ==> number_or_cleared(Some(n), old_number) == Some(n),
{
}

/// The address is the first word behind `inet ` on the first line that has one; lines before
/// it that have none do not matter, nor does any line behind it.
pub proof fn first_line_with_an_address_decides(a: Seq<Seq<char>>, b: Seq<Seq<char>>, line: Seq<char>)
    ensures
        first_address(Seq::<Seq<char>>::empty()) is None,
        first_address(a) is Some ==> first_address(a + b) == first_address(a),
        first_address(a) is None ==> first_address(a + b) == first_address(b),
        !has_prefix(trim(line), seq!['i', 'n', 'e', 't', ' ']) ==> first_address(seq![line]) is None,
        has_prefix(trim(line), seq!['i', 'n', 'e', 't', ' ']) && words(trim(line).skip(5)).len() == 0
            ==> first_address(seq![line]) is None,
        has_prefix(trim(line), seq!['i', 'n', 'e', 't', ' ']) && words(trim(line).skip(5)).len() > 0
            ==> first_address(seq![line]) == Some(words(trim(line).skip(5))[0]),
    decreases a.len(),
{
    reveal_strlit("inet ");
    assert("inet "@ =~= seq!['i', 'n', 'e', 't', ' ']);
    reveal_with_fuel(first_address, 2);
    assert(seq![line].skip(1) =~= Seq::<Seq<char>>::empty());
    if a.len() == 0 {
        assert(a + b =~= b);
    } else {
        assert((a + b)[0] == a[0]);
        assert((a + b).skip(1) =~= a.skip(1) + b);
        first_line_with_an_address_decides(a.skip(1), b, line);
    }
}

/// A request that is accepted leaves the tunnel with the name, the peer and the networks behind
/// either end that it asks for, under the identifier that the tunnel had. One that would
/// authenticate by a certificate from nowhere is not accepted, nor is one with a word that
/// cannot be read; the first such word is answered.
pub proof fn accepted_request_makes_the_tunnel(t: IpsecTunnel, q: IpsecTunnelRequest, v: IpsecReadings,
    r: Result<IpsecTunnel, Refusal>)
    requires
        call_ensures(apply_tunnel_request, (t, q, v), r),
    ensures
        r matches Ok(n) ==> n.id == t.id && n.name == q.name && n.remote_addr == q.remote_addr
            && n.local_ts == q.local_ts && n.remote_ts == q.remote_ts,
        r matches Ok(n) ==> n.auth_method != IpsecAuthMethod::Cert || n.cert_source is Some,
        r matches Ok(n) ==> (q.psk is None ==> n.psk == t.psk) && (q.local_key_pem is None
            ==> n.local_key_pem == t.local_key_pem),
        q.auth_method is Some ==> (v.auth_method matches Err(f) ==> r is Err && r->Err_0.status == kind_status(f.kind)
            && r->Err_0.message == f.text),
        q.auth_method is None && q.start_action is Some && q.cert_source is None ==> (v.start_action matches Err(f)
            ==> r is Err && r->Err_0.message == f.text),
        q.auth_method is None && q.cert_source is None && q.start_action is None
            && t.auth_method == IpsecAuthMethod::Cert && t.cert_source is None ==> r is Err
            && r->Err_0.status == Status::BadRequest && r->Err_0.message@ == "cert auth requires cert_source"@,
        q.auth_method is None && q.cert_source is None && q.start_action is None
            && t.auth_method != IpsecAuthMethod::Cert ==> r is Ok,
{
}

/// A new peer holds what was asked for, each value in its own place, with the addresses that
/// were read in their order; its keys are those that were made where that was asked for, and
/// otherwise the public key of the request alone.
pub proof fn new_peer_goes_by_its_request(tunnel_id: &str, q: CreateWgPeerRequest, ips: Vec<Option<Address>>,
    generated: Option<(String, String)>, r: Result<WgPeer, Status>, i: int)
    requires
        call_ensures(create_wg_peer, (tunnel_id, q, ips, generated), r),
    ensures
        r matches Ok(p) ==> p.endpoint == q.endpoint && p.persistent_keepalive == q.keepalive
            && p.preshared_key == q.preshared_key,
        r matches Ok(p) ==> (q.name matches Some(n) ==> p.name@ == n@) && (q.name is None ==> p.name@.len() == 0),
        r matches Ok(p) ==> p.allowed_ips@.len() == ips@.len() && (0 <= i < ips@.len()
            ==> ips@[i] == Some(p.allowed_ips@[i])),
        r matches Ok(p) ==> q.auto_generate_key == Some(true) ==> (generated matches Some(k)
            && p.private_key == Some(k.0) && p.public_key == k.1),
        r matches Ok(p) ==> q.auto_generate_key != Some(true) ==> p.private_key is None
            && q.public_key == Some(p.public_key),
{
    reveal_strlit("");
}

/// A changed peer keeps its keys. What the request gives is taken over, each value in its own
/// place, an empty text and a zero clear, and the rest stays.
pub proof fn changed_peer_keeps_its_keys(id: &str, p: WgPeer, q: UpdateWgPeerRequest, ips: Vec<Option<Address>>,
    r: Result<WgPeer, Status>)
    requires
        call_ensures(update_wg_peer, (id, Some(p), q, ips), r),
    ensures
        r matches Ok(n) ==> n.public_key == p.public_key && n.private_key == p.private_key,
        r matches Ok(n) ==> (q.name matches Some(x) ==> n.name == x) && (q.name is None ==> n.name == p.name),
        r matches Ok(n) ==> (q.endpoint is None ==> n.endpoint == p.endpoint) && (q.endpoint matches Some(x)
            ==> n.endpoint == (if x@.len() > 0 { Some(x) } else { None })),
        r matches Ok(n) ==> (q.preshared_key is None ==> n.preshared_key == p.preshared_key)
            && (q.preshared_key matches Some(x) ==> n.preshared_key == (if x@.len() > 0 { Some(x) } else { None })),
        r matches Ok(n) ==> (q.keepalive is None ==> n.persistent_keepalive == p.persistent_keepalive)
            && (q.keepalive matches Some(x) ==> n.persistent_keepalive == (if x > 0 { Some(x) } else { None })),
        r matches Ok(n) ==> (q.allowed_ips is None ==> n.allowed_ips@ == p.allowed_ips@) && (q.allowed_ips is Some
            ==> n.allowed_ips@ == read_values(ips@)),
        r is Ok <==> uuid_text(id@) is Some && (q.allowed_ips is Some ==> all_read(ips@)),
{
}

/// A new tunnel gets an interface that no other has, and the key of the request with the public
/// key that belongs to it, or both that were made.
pub proof fn new_tunnel_takes_a_free_interface(q: CreateWgTunnelRequest, v: WgReadings, interfaces: &Vec<String>,
    r: Result<WgTunnel, Status>)
    requires
        call_ensures(create_wg_tunnel, (q, v, interfaces), r),
    ensures
        r matches Ok(t) ==> exists|n: nat| t.interface@ == "wg"@ + #[trigger] dec(n)
            && !is_taken(views(interfaces@), n as int),
        r matches Ok(t) ==> (q.private_key matches Some(k) ==> t.private_key == k && v.derived == Some(t.public_key)),
        r matches Ok(t) ==> q.private_key is None ==> (v.generated matches Some(k) && t.private_key == k.0
            && t.public_key == k.1),
        r matches Ok(t) ==> t.name == q.name && t.listen_port == q.listen_port && v.address == Some(t.address)
            && t.dns == q.dns && t.mtu == q.mtu,
{
    if r is Ok {
        let t = r->Ok_0;
        let n = choose|n: int|
            0 <= n && #[trigger] is_lowest_free(views(interfaces@), n) && t.interface@ == "wg"@ + dec(n as nat);
        assert(t.interface@ == "wg"@ + dec(n as nat) && !is_taken(views(interfaces@), (n as nat) as int));
    }
}

/// A changed tunnel keeps its interface and its keys, and takes the rest from the request.
pub proof fn changed_tunnel_keeps_its_keys(id: &str, t: WgTunnel, q: CreateWgTunnelRequest, v: WgReadings,
    r: Result<WgTunnel, Status>)
    requires
        call_ensures(update_wg_tunnel, (id, Some(t), q, v), r),
    ensures
        r matches Ok(n) ==> n.interface == t.interface && n.private_key == t.private_key
            && n.public_key == t.public_key,
        r matches Ok(n) ==> n.name == q.name && n.listen_port == q.listen_port && v.address == Some(n.address)
            && n.dns == q.dns && n.mtu == q.mtu && n.listen_interface == q.listen_interface,
        uuid_text(id@) is None ==> r == Err::<WgTunnel, Status>(Status::BadRequest),
        uuid_text(id@) is Some && v.address is Some && q.address6 is None ==> r is Ok,
{
}

/// Clients are told the outer address where it is known, and otherwise the address of the
/// tunnel without its length.
pub proof fn clients_reach_the_server(ip: String, a: Seq<char>, b: Seq<char>, tunnel_address: &str, r: String)
    ensures
        call_ensures(server_endpoint, (Some(ip), tunnel_address), r) ==> r@ == ip@,
        call_ensures(server_endpoint, (None::<String>, tunnel_address), r) && tunnel_address@ == a + seq!['/'] + b
            && !a.contains('/') && !b.contains('/') ==> r@ == a,
{
    if !a.contains('/') && !b.contains('/') {
        let l = seq![a, b];
        assert(l.drop_last() =~= seq![a]);
        reveal_with_fuel(crate::text::join, 2);
        assert(crate::text::join(l, seq!['/']) == a + seq!['/'] + b);
        crate::text::split_of_join(l, '/');
    }
}

/// A change is answered by its own words where it was made, and by its own failure where not; what
/// is no identifier is a bad request.
pub proof fn changes_of_tunnels_are_answered(id: &str, r: Result<MessageResponse, Status>)
    ensures
        call_ensures(delete_wg_tunnel, (id, true), r) && uuid_text(id@) is Some ==> r is Ok
            && r->Ok_0.message@ == "WG tunnel "@ + id@ + " deleted"@,
        call_ensures(delete_wg_tunnel, (id, false), r) && uuid_text(id@) is Some
            ==> r == Err::<MessageResponse, Status>(Status::NotFound),
        call_ensures(delete_wg_tunnel, (id, true), r) && uuid_text(id@) is None
            ==> r == Err::<MessageResponse, Status>(Status::BadRequest),
        call_ensures(start_wg_tunnel, (id, true), r) && uuid_text(id@) is Some ==> r is Ok
            && r->Ok_0.message@ == "Tunnel started"@,
        call_ensures(start_wg_tunnel, (id, false), r) && uuid_text(id@) is Some
            ==> r == Err::<MessageResponse, Status>(Status::Internal),
        call_ensures(start_wg_tunnel, (id, true), r) && uuid_text(id@) is None
            ==> r == Err::<MessageResponse, Status>(Status::BadRequest),
        call_ensures(stop_wg_tunnel, (id, true), r) && uuid_text(id@) is Some ==> r is Ok
            && r->Ok_0.message@ == "Tunnel stopped"@,
        call_ensures(stop_wg_tunnel, (id, false), r) && uuid_text(id@) is Some
            ==> r == Err::<MessageResponse, Status>(Status::Internal),
        call_ensures(stop_wg_tunnel, (id, true), r) && uuid_text(id@) is None
            ==> r == Err::<MessageResponse, Status>(Status::BadRequest),
        call_ensures(delete_wg_peer, (id, true), r) && uuid_text(id@) is Some ==> r is Ok
            && r->Ok_0.message@ == "WG peer "@ + id@ + " deleted"@,
        call_ensures(delete_wg_peer, (id, false), r) && uuid_text(id@) is Some
            ==> r == Err::<MessageResponse, Status>(Status::NotFound),
        call_ensures(delete_wg_peer, (id, true), r) && uuid_text(id@) is None
            ==> r == Err::<MessageResponse, Status>(Status::BadRequest),
        call_ensures(delete_ipsec_sa, (id, true), r) && uuid_text(id@) is Some ==> r is Ok
            && r->Ok_0.message@ == "IPsec SA "@ + id@ + " deleted"@,
        call_ensures(delete_ipsec_sa, (id, false), r) && uuid_text(id@) is Some
            ==> r == Err::<MessageResponse, Status>(Status::NotFound),
        call_ensures(delete_ipsec_sa, (id, true), r) && uuid_text(id@) is None
            ==> r == Err::<MessageResponse, Status>(Status::BadRequest),
{
}

/// A change of an IPsec tunnel is answered by its own words; the earlier records are gone.
pub proof fn ipsec_changes_are_answered(id: &str, r: Result<MessageResponse, Refusal>, g: Refusal)
    ensures
        call_ensures(delete_ipsec_tunnel, (id, Ok::<(), EngineFailure>(())), r) && uuid_text(id@) is Some ==> r is Ok
            && r->Ok_0.message@ == "IPsec tunnel "@ + id@ + " deleted"@,
        call_ensures(start_ipsec_tunnel, (id, Ok::<(), EngineFailure>(())), r) && uuid_text(id@) is Some ==> r is Ok
            && r->Ok_0.message@ == "Tunnel initiated"@,
        call_ensures(stop_ipsec_tunnel, (id, Ok::<(), EngineFailure>(())), r) && uuid_text(id@) is Some ==> r is Ok
            && r->Ok_0.message@ == "Tunnel terminated"@,
        call_ensures(create_ipsec_sa_gone, (), g) ==> g.status == Status::Gone
            && g.message@ == "legacy IPsec SA records are read-only; use /api/v1/vpn/ipsec/tunnels"@,
{
}

} // verus!
