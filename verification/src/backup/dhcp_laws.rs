//! What the check of a DHCP section finds, and what is safe to send.

use vstd::prelude::*;
use vstd::string::*;

use crate::backup::dhcp::{
    about, dhcp_errors, dhcp_info, dhcp_warnings, gateway_errors, is_repeated_ip, is_repeated_network, is_safe_option,
    network_warnings, option_kind_errors, options_errors, placement_errors, placement_warnings, pool_errors,
    relay_errors, relays_errors, reservation_errors, reservation_warnings, subnet_errors, subnet_index, subnet_warnings,
    subnets_errors, subnets_warnings, usable_relays, DhcpOptionOverrideConfig, DhcpReservationConfig, DhcpSection,
    DhcpSubnetConfig,
};
use crate::kv::items;
use crate::lists::append_holds;
use crate::net::{ipv4, is_hex, is_ipv6, loopback, network_is_a_run_of_addresses, v4_cidr};
use crate::number::{dec, parsed};
use crate::text::{split, trim, views};

verus! {

/// The address lies in the run of addresses that the network is.
pub open spec fn lies_in(ip: nat, net: nat, prefix: nat) -> bool {
    let size = vstd::arithmetic::power2::pow2((32 - prefix) as nat);
    net - net % size <= ip < net - net % size + size
}

// ---------------------------------------------------------------------------
// Reservations
// ---------------------------------------------------------------------------

proof fn lemma_index_of_first(l: Seq<DhcpSubnetConfig>, id: Seq<char>, k: int)
    requires
        0 <= k < l.len(),
        l[k].id@ == id,
        forall|j: int| 0 <= j < k ==> (#[trigger] l[j]).id@ != id,
    ensures
        subnet_index(l, id) == k,
    decreases k,
{
    if k > 0 {
        assert(l[0].id@ != id);
        assert forall|j: int| 0 <= j < k - 1 implies (#[trigger] l.skip(1)[j]).id@ != id by {
            assert(l.skip(1)[j] == l[j + 1]);
        }
        assert(l.skip(1)[k - 1] == l[k]);
        lemma_index_of_first(l.skip(1), id, k - 1);
    }
}

proof fn lemma_index_of_none(l: Seq<DhcpSubnetConfig>, id: Seq<char>)
    requires
        forall|j: int| 0 <= j < l.len() ==> (#[trigger] l[j]).id@ != id,
    ensures
        subnet_index(l, id) == l.len(),
    decreases l.len(),
{
    if l.len() > 0 {
        assert(l[0].id@ != id);
        assert forall|j: int| 0 <= j < l.skip(1).len() implies (#[trigger] l.skip(1)[j]).id@ != id by {
            assert(l.skip(1)[j] == l[j + 1]);
        }
        lemma_index_of_none(l.skip(1), id);
    }
}

/// A reservation in the subnet that it names adds no error about its place, and
/// one outside of it adds exactly one. The subnet is the first with the name.
pub proof fn reservations_lie_in_their_subnet(
    r: DhcpReservationConfig,
    subnets: Seq<DhcpSubnetConfig>,
    k: int,
    net: nat,
    prefix: nat,
    ip: nat,
)
    requires
        r.subnet_id is Some,
        0 <= k < subnets.len(),
        subnets[k].id@ == r.subnet_id->0@,
        forall|j: int| 0 <= j < k ==> (#[trigger] subnets[j]).id@ != r.subnet_id->0@,
        v4_cidr(subnets[k].network@) == Some((net, prefix)),
        ipv4(r.ip_address@) == Some(ip),
    ensures
        lies_in(ip, net, prefix) ==> placement_errors(r, subnets) == Seq::<Seq<char>>::empty(),
        !lies_in(ip, net, prefix) ==> placement_errors(r, subnets) == Seq::<Seq<char>>::empty().push(
            "DHCP reservation "@ + r.ip_address@ + " (MAC "@ + r.mac_address@ + ") is outside subnet "@
                + subnets[k].network@,
        ),
        placement_warnings(r, subnets) == Seq::<Seq<char>>::empty(),
{
    lemma_index_of_first(subnets, r.subnet_id->0@, k);
    network_is_a_run_of_addresses(ip, net, prefix);
}

/// A reservation for a subnet that there is not is told of; one for no subnet in
/// particular is not, and neither is out of place.
pub proof fn reservations_name_a_subnet(r: DhcpReservationConfig, subnets: Seq<DhcpSubnetConfig>)
    ensures
        r.subnet_id is None ==> placement_errors(r, subnets) == Seq::<Seq<char>>::empty()
            && placement_warnings(r, subnets)
            == Seq::<Seq<char>>::empty(),
        r.subnet_id is Some && (forall|j: int| 0 <= j < subnets.len()
            ==> (#[trigger] subnets[j]).id@ != r.subnet_id->0@)
            ==> placement_errors(r, subnets) == Seq::<Seq<char>>::empty() && placement_warnings(r, subnets) == Seq::<
            Seq<char>,
        >::empty().push("DHCP reservation "@ + r.ip_address@ + " references missing subnet "@ + r.subnet_id->0@),
{
    if r.subnet_id is Some && (forall|j: int| 0 <= j < subnets.len()
        ==> (#[trigger] subnets[j]).id@ != r.subnet_id->0@) {
        lemma_index_of_none(subnets, r.subnet_id->0@);
    }
}

proof fn lemma_reservation_errors(l: Seq<DhcpReservationConfig>, subnets: Seq<DhcpSubnetConfig>, n: int, e: Seq<char>)
    requires
        0 <= n <= l.len(),
    ensures
        reservation_errors(l, subnets, n).contains(e) <==> exists|i: int|
            0 <= i < n && ((is_repeated_ip(l, i)
                && e == "DHCP reservation IP "@ + (#[trigger] l[i]).ip_address@ + " is duplicated"@)
                || placement_errors(l[i], subnets).contains(e)),
    decreases n,
{
    if n > 0 {
        lemma_reservation_errors(l, subnets, n - 1, e);
        let x = l[n - 1];
        let m = "DHCP reservation IP "@ + x.ip_address@ + " is duplicated"@;
        let d = if is_repeated_ip(l, n - 1) {
            seq![m]
        } else {
            Seq::<Seq<char>>::empty()
        };
        let before = reservation_errors(l, subnets, n - 1);
        append_holds(before, d, e);
        append_holds(before + d, placement_errors(x, subnets), e);
        if is_repeated_ip(l, n - 1) {
            assert(seq![m][0] == m);
        }
        if exists|i: int|
            0 <= i < n && ((is_repeated_ip(l, i)
                && e == "DHCP reservation IP "@ + (#[trigger] l[i]).ip_address@ + " is duplicated"@)
                || placement_errors(l[i], subnets).contains(e)) {
            let i = choose|i: int|
                0 <= i < n && ((is_repeated_ip(l, i) && e == "DHCP reservation IP "@ + (#[trigger] l[i]).ip_address@
                    + " is duplicated"@) || placement_errors(l[i], subnets).contains(e));
            if i == n - 1 {
                if is_repeated_ip(l, n - 1) && e == m {
                    assert(d.contains(m));
                }
            }
        }
        if d.contains(e) {
            assert(e == m);
            assert(l[n - 1].ip_address@ == x.ip_address@);
        }
    }
}

// ---------------------------------------------------------------------------
// Subnets
// ---------------------------------------------------------------------------

/// A gateway in its subnet adds no error; one outside of it, or one that is
/// given and no address, adds exactly one.
pub proof fn gateways_lie_in_their_subnet(network: Seq<char>, gateway: Seq<char>, net: nat, prefix: nat)
    requires
        prefix <= 32,
    ensures
        ipv4(gateway) is Some && lies_in(ipv4(gateway)->0, net, prefix)
            ==> gateway_errors(network, gateway, net, prefix) == Seq::<
            Seq<char>,
        >::empty(),
        ipv4(gateway) is Some && !lies_in(ipv4(gateway)->0, net, prefix)
            ==> gateway_errors(network, gateway, net, prefix) == Seq::<
            Seq<char>,
        >::empty().push("DHCP subnet "@ + network + ": gateway "@ + gateway + " is outside the subnet"@),
        ipv4(gateway) is None && gateway.len() > 0
            ==> gateway_errors(network, gateway, net, prefix) == Seq::<Seq<char>>::empty().push(
            "DHCP subnet "@ + network + ": gateway '"@ + gateway + "' is not a valid IPv4 address"@,
        ),
        gateway.len() == 0 && ipv4(gateway) is None
            ==> gateway_errors(network, gateway, net, prefix) == Seq::<Seq<char>>::empty(),
{
    if ipv4(gateway) is Some {
        network_is_a_run_of_addresses(ipv4(gateway)->0, net, prefix);
    }
}

/// A pool is in order where both its ends are addresses of the subnet and the
/// first does not lie behind the last; whatever is not is told of.
pub proof fn pools_lie_in_their_subnet(s: DhcpSubnetConfig, net: nat, prefix: nat)
    requires
        prefix <= 32,
    ensures
        ipv4(s.pool_start@) is None || ipv4(s.pool_end@) is None
            ==> pool_errors(s, net, prefix) == Seq::<Seq<char>>::empty().push(
            "DHCP subnet "@ + s.network@ + ": invalid pool range"@,
        ),
        ipv4(s.pool_start@) is Some && ipv4(s.pool_end@) is Some ==> {
            let first = ipv4(s.pool_start@)->0;
            let last = ipv4(s.pool_end@)->0;
            let e = pool_errors(s, net, prefix);
            &&& e.len() == 0 <==> first <= last && lies_in(first, net, prefix) && lies_in(last, net, prefix)
            &&& first > last ==> e.contains(
                "DHCP subnet "@ + s.network@ + ": pool_start "@ + s.pool_start@ + " > pool_end "@ + s.pool_end@,
            )
            &&& !lies_in(first, net, prefix) ==> e.contains(
                "DHCP subnet "@ + s.network@ + ": pool_start "@ + s.pool_start@ + " outside subnet"@,
            )
            &&& !lies_in(last, net, prefix) ==> e.contains(
                "DHCP subnet "@ + s.network@ + ": pool_end "@ + s.pool_end@ + " outside subnet"@,
            )
            &&& e.len() == (if first > last {
                1int
            } else {
                0
            }) + (if lies_in(first, net, prefix) {
                0int
            } else {
                1
            }) + (if lies_in(last, net, prefix) {
                0int
            } else {
                1
            })
        },
{
    if ipv4(s.pool_start@) is Some && ipv4(s.pool_end@) is Some {
        let first = ipv4(s.pool_start@)->0;
        let last = ipv4(s.pool_end@)->0;
        network_is_a_run_of_addresses(first, net, prefix);
        network_is_a_run_of_addresses(last, net, prefix);
        let e = pool_errors(s, net, prefix);
        let a: int = if first > last {
            1
        } else {
            0
        };
        let b: int = if lies_in(first, net, prefix) {
            0
        } else {
            1
        };
        if first > last {
            assert(e.contains(e[0]));
        }
        if !lies_in(first, net, prefix) {
            assert(e.contains(e[a]));
        }
        if !lies_in(last, net, prefix) {
            assert(e.contains(e[a + b]));
        }
    }
}

/// A relay has to be an IPv4 address of another machine; each one that is not is
/// told of.
pub proof fn relays_are_other_machines(network: Seq<char>, relay: Seq<char>)
    ensures
        ipv4(relay) is None ==> relay_errors(network, relay) == Seq::<Seq<char>>::empty().push(
            "DHCP subnet "@ + network + ": trusted relay '"@ + relay + "' is not a valid IPv4 address"@,
        ),
        ipv4(relay) is Some && 2130706432 <= ipv4(relay)->0 <= 2147483647 ==> relay_errors(network, relay) == Seq::<
            Seq<char>,
        >::empty().push("DHCP subnet "@ + network + ": trusted relay "@ + relay + " is a loopback address"@),
        ipv4(relay) is Some && !(2130706432 <= ipv4(relay)->0 <= 2147483647) ==> relay_errors(network, relay) == Seq::<
            Seq<char>,
        >::empty(),
{
    if ipv4(relay) is Some {
        crate::net::loopback_is_one_block(ipv4(relay)->0);
    }
}

/// The relays are checked one after the other.
pub proof fn relays_in_order(a: Seq<Seq<char>>, b: Seq<Seq<char>>, network: Seq<char>)
    ensures
        relays_errors(network, Seq::<Seq<char>>::empty()) == Seq::<Seq<char>>::empty(),
        relays_errors(network, a + b) == relays_errors(network, a) + relays_errors(network, b),
    decreases b.len(),
{
    if b.len() == 0 {
        assert(a + b =~= a);
        assert(relays_errors(network, a) + relays_errors(network, b) =~= relays_errors(network, a));
    } else {
        assert((a + b).drop_last() =~= a + b.drop_last());
        relays_in_order(a, b.drop_last(), network);
        assert(relays_errors(network, a + b) =~= relays_errors(network, a) + relays_errors(network, b));
    }
}

/// Each relay adds its own errors.
pub proof fn relay_is_checked(network: Seq<char>, x: Seq<char>)
    ensures
        relays_errors(network, Seq::<Seq<char>>::empty().push(x)) == relay_errors(network, x),
{
    reveal_with_fuel(relays_errors, 2);
    assert(Seq::<Seq<char>>::empty().push(x).drop_last() =~= Seq::<Seq<char>>::empty());
    assert(Seq::<Seq<char>>::empty() + relay_errors(network, x) =~= relay_errors(network, x));
}

/// The relays that are stored keep their order.
pub proof fn usable_relays_in_order(a: Seq<Seq<char>>, b: Seq<Seq<char>>)
    ensures
        usable_relays(Seq::<Seq<char>>::empty()) == Seq::<Seq<char>>::empty(),
        usable_relays(a + b) == usable_relays(a) + usable_relays(b),
    decreases b.len(),
{
    if b.len() == 0 {
        assert(a + b =~= a);
        assert(usable_relays(a) + usable_relays(b) =~= usable_relays(a));
    } else {
        assert((a + b).drop_last() =~= a + b.drop_last());
        usable_relays_in_order(a, b.drop_last());
        assert(usable_relays(a + b) =~= usable_relays(a) + usable_relays(b));
    }
}

/// A relay is stored exactly where it is an IPv4 address of another machine.
pub proof fn usable_relays_are_other_machines(x: Seq<char>)
    ensures
        ipv4(trim(x)) is Some && !(2130706432 <= ipv4(trim(x))->0 <= 2147483647)
            ==> usable_relays(Seq::<Seq<char>>::empty().push(x)) == Seq::<Seq<char>>::empty().push(x),
        ipv4(trim(x)) is None || 2130706432 <= ipv4(trim(x))->0 <= 2147483647
            ==> usable_relays(Seq::<Seq<char>>::empty().push(x)) == Seq::<Seq<char>>::empty(),
{
    reveal_with_fuel(usable_relays, 2);
    assert(Seq::<Seq<char>>::empty().push(x).drop_last() =~= Seq::<Seq<char>>::empty());
    if ipv4(trim(x)) is Some {
        crate::net::loopback_is_one_block(ipv4(trim(x))->0);
    }
}

// ---------------------------------------------------------------------------
// Options
// ---------------------------------------------------------------------------

/// The options that the protocol itself uses, and those that a setting of the
/// subnet stands for, are never sent from a backup. Any other is sent exactly
/// where its value is of its type.
pub proof fn safe_options_are_of_their_type(o: DhcpOptionOverrideConfig)
    ensures
        o.code == 0 || o.code == 1 || o.code == 28 || (50 <= o.code <= 51) || (53 <= o.code <= 55)
            || (57 <= o.code <= 59)
            || o.code == 82 || o.code == 255 ==> !is_safe_option(o),
        o.code == 3 || o.code == 6 || o.code == 15 || o.code == 42 ==> !is_safe_option(o),
        trim(o.value@).len() == 0 ==> !is_safe_option(o),
        ({
            let free = !(o.code == 0 || o.code == 1 || o.code == 28 || (50 <= o.code <= 51) || (53 <= o.code <= 55)
                || (57 <= o.code
                <= 59) || o.code == 82 || o.code == 255 || o.code == 3 || o.code == 6 || o.code == 15 || o.code == 42);
            let v = trim(o.value@);
            &&& free && v.len() > 0 && o.value_type@ == "ip"@ ==> is_safe_option(o) == (ipv4(v) is Some)
            &&& free && v.len() > 0 && o.value_type@ == "ips"@ ==> is_safe_option(o) == (items(v, ',').len() > 0
                && (forall|i: int|
                0 <= i < items(v, ',').len() ==> ipv4(#[trigger] items(v, ',')[i]) is Some))
            &&& free && v.len() > 0 && o.value_type@ == "string"@ ==> is_safe_option(o) == (v.len() <= 255
                && (forall|i: int|
                0 <= i < v.len() ==> ' ' <= #[trigger] v[i] <= '~'))
            &&& free && v.len() > 0 && o.value_type@ == "u8"@ ==> is_safe_option(o) == (parsed(v, 255) is Some)
            &&& free && v.len() > 0 && o.value_type@ == "u16"@ ==> is_safe_option(o) == (parsed(v, 65535) is Some)
            &&& free && v.len() > 0 && o.value_type@ == "u32"@ ==> is_safe_option(o) == (parsed(v, 4294967295) is Some)
            &&& free && v.len() > 0 && o.value_type@ == "hex"@ ==> is_safe_option(o) == (v.len() <= 510
                && v.len() % 2 == 0 && (
            forall|i: int| 0 <= i < v.len() ==> is_hex(#[trigger] v[i])))
        }),
        o.value_type@ != "ip"@ && o.value_type@ != "ips"@ && o.value_type@ != "string"@ && o.value_type@ != "u8"@
            && o.value_type@
            != "u16"@ && o.value_type@ != "u32"@ && o.value_type@ != "hex"@ ==> !is_safe_option(o),
{
    lemma_types_differ();
}

proof fn lemma_types_differ()
    ensures
        "ip"@ != "ips"@ && "ip"@ != "string"@ && "ip"@ != "u8"@ && "ip"@ != "u16"@ && "ip"@ != "u32"@
            && "ip"@ != "hex"@,
        "ips"@ != "string"@ && "ips"@ != "u8"@ && "ips"@ != "u16"@ && "ips"@ != "u32"@ && "ips"@ != "hex"@,
        "string"@ != "u8"@ && "string"@ != "u16"@ && "string"@ != "u32"@ && "string"@ != "hex"@,
        "u8"@ != "u16"@ && "u8"@ != "u32"@ && "u8"@ != "hex"@,
        "u16"@ != "u32"@ && "u16"@ != "hex"@,
        "u32"@ != "hex"@,
{
    reveal_strlit("ip");
    reveal_strlit("ips");
    reveal_strlit("string");
    reveal_strlit("u8");
    reveal_strlit("u16");
    reveal_strlit("u32");
    reveal_strlit("hex");
    assert("ip"@.len() == 2 && "ips"@.len() == 3 && "string"@.len() == 6 && "u8"@.len() == 2 && "u16"@.len() == 3
        && "u32"@.len() == 3
        && "hex"@.len() == 3);
    assert("ip"@[0] == 'i' && "ips"@[0] == 'i' && "u8"@[0] == 'u' && "u16"@[0] == 'u' && "u32"@[0] == 'u'
        && "hex"@[0] == 'h' && "u16"@[1]
        == '1' && "u32"@[1] == '3');
}

/// An option that may not be sent adds one error that says why; one that may be
/// sent adds none.
pub proof fn unsafe_options_are_told_of(network: Seq<char>, o: DhcpOptionOverrideConfig)
    ensures
        is_safe_option(o) ==> option_kind_errors(network, o) == Seq::<Seq<char>>::empty(),
        !is_safe_option(o) ==> option_kind_errors(network, o).len() == 1,
        o.code == 0 || o.code == 1 || o.code == 28 || (50 <= o.code <= 51) || (53 <= o.code <= 55)
            || (57 <= o.code <= 59)
            || o.code == 82 || o.code == 255 ==> option_kind_errors(network, o) == Seq::<Seq<char>>::empty().push(
            "DHCP subnet "@ + network + ": option code "@ + dec(o.code as nat) + " is reserved"@,
        ),
        o.code == 3 || o.code == 6 || o.code == 15 || o.code == 42
            ==> option_kind_errors(network, o) == Seq::<Seq<char>>::empty().push(
            "DHCP subnet "@ + network + ": option code "@ + dec(o.code as nat)
                + " conflicts with a typed field (router/dns/domain/ntp)"@,
        ),
        !is_safe_option(o) && !(o.code == 0 || o.code == 1 || o.code == 28 || (50 <= o.code <= 51)
            || (53 <= o.code <= 55) || (57
            <= o.code <= 59) || o.code == 82 || o.code == 255 || o.code == 3 || o.code == 6 || o.code == 15
                || o.code == 42)
            ==> option_kind_errors(network, o) == Seq::<Seq<char>>::empty().push(
            "DHCP subnet "@ + network + ": option "@ + dec(o.code as nat) + " has an invalid value for type '"@
                + o.value_type@ + "'"@,
        ),
{
}

/// A code that stood before is told of as a duplicate; the first one is not.
pub proof fn repeated_options_are_told_of(network: Seq<char>, opts: Seq<DhcpOptionOverrideConfig>, n: int)
    requires
        0 <= n < opts.len(),
    ensures
        options_errors(network, opts, 0) == Seq::<Seq<char>>::empty(),
        (exists|j: int| 0 <= j < n && (#[trigger] opts[j]).code == opts[n].code)
            ==> options_errors(network, opts, n + 1)
            == options_errors(network, opts, n).push(
            "DHCP subnet "@ + network + ": option "@ + dec(opts[n].code as nat) + " is duplicated"@,
        ) + option_kind_errors(network, opts[n]),
        !(exists|j: int| 0 <= j < n && (#[trigger] opts[j]).code == opts[n].code)
            ==> options_errors(network, opts, n + 1)
            == options_errors(network, opts, n) + option_kind_errors(network, opts[n]),
{
    let a = options_errors(network, opts, n);
    let m = "DHCP subnet "@ + network + ": option "@ + dec(opts[n].code as nat) + " is duplicated"@;
    assert(a + seq![m] =~= a.push(m));
    assert(a + Seq::<Seq<char>>::empty() =~= a);
}

// ---------------------------------------------------------------------------
// The section
// ---------------------------------------------------------------------------

/// Only subnets that are switched on and hand out IPv4 addresses are checked;
/// what is checked of them are the gateway, the pool, the relays and the
/// options.
pub proof fn ipv4_subnets_are_checked(s: DhcpSubnetConfig, accept_relayed: bool)
    ensures
        !s.enabled || s.subnet_type@ == "prefix-delegation"@ || is_ipv6(split(s.network@, '/')[0])
            ==> subnet_errors(s) == Seq::<
            Seq<char>,
        >::empty() && subnet_warnings(s, accept_relayed) == Seq::<Seq<char>>::empty(),
        s.enabled && s.subnet_type@ != "prefix-delegation"@ && !is_ipv6(split(s.network@, '/')[0])
            && v4_cidr(s.network@) is None
            ==> subnet_errors(s) == Seq::<Seq<char>>::empty()
                && subnet_warnings(s, accept_relayed) == Seq::<Seq<char>>::empty().push(
            "DHCP subnet "@ + s.network@ + ": invalid CIDR"@,
        ),
        s.enabled && s.subnet_type@ != "prefix-delegation"@ && !is_ipv6(split(s.network@, '/')[0])
            && v4_cidr(s.network@) is Some ==> {
            let (net, prefix) = v4_cidr(s.network@)->0;
            &&& subnet_errors(s) == gateway_errors(s.network@, s.gateway@, net, prefix) + pool_errors(s, net,
                prefix) + relays_errors(
                s.network@,
                views(s.trusted_relays@),
            ) + options_errors(s.network@, s.options@, s.options@.len() as int)
            &&& accept_relayed || s.trusted_relays@.len() == 0
                ==> subnet_warnings(s, accept_relayed) == Seq::<Seq<char>>::empty()
            &&& !accept_relayed && s.trusted_relays@.len() > 0
                ==> subnet_warnings(s, accept_relayed) == Seq::<Seq<char>>::empty().push(
                "DHCP subnet "@ + s.network@
                    + ": trusted_relays set but global accept_relayed is off — list will be ignored"@,
            )
        },
{
}

proof fn lemma_subnets_errors(l: Seq<DhcpSubnetConfig>, n: int, e: Seq<char>)
    requires
        0 <= n <= l.len(),
    ensures
        subnets_errors(l, n).contains(e) <==> exists|i: int| 0 <= i < n && subnet_errors(#[trigger] l[i]).contains(e),
    decreases n,
{
    if n > 0 {
        lemma_subnets_errors(l, n - 1, e);
        append_holds(subnets_errors(l, n - 1), subnet_errors(l[n - 1]), e);
    }
}

proof fn lemma_subnets_warnings(l: Seq<DhcpSubnetConfig>, accept_relayed: bool, n: int, e: Seq<char>)
    requires
        0 <= n <= l.len(),
    ensures
        subnets_warnings(l, accept_relayed, n).contains(e) <==> exists|i: int|
            0 <= i < n && subnet_warnings(#[trigger] l[i], accept_relayed).contains(e),
    decreases n,
{
    if n > 0 {
        lemma_subnets_warnings(l, accept_relayed, n - 1, e);
        append_holds(subnets_warnings(l, accept_relayed, n - 1), subnet_warnings(l[n - 1], accept_relayed), e);
    }
}

/// The errors of a section are those of its subnets, those of its reservations'
/// places, and the addresses that are reserved twice. A section that is not in
/// use has none.
pub proof fn every_error_of_a_section_is_told(d: DhcpSection, e: Seq<char>)
    ensures
        !d.global.enabled && d.subnets@.len() == 0 ==> dhcp_errors(d) == Seq::<Seq<char>>::empty()
            && dhcp_warnings(d) == Seq::<
            Seq<char>,
        >::empty() && dhcp_info(d) == Seq::<Seq<char>>::empty(),
        d.global.enabled || d.subnets@.len() > 0 ==> (dhcp_errors(d).contains(e) <==> {
            ||| exists|i: int| 0 <= i < d.subnets@.len() && subnet_errors(#[trigger] d.subnets@[i]).contains(e)
            ||| exists|i: int|
                0 <= i < d.reservations@.len()
                    && placement_errors(#[trigger] d.reservations@[i], d.subnets@).contains(e)
            ||| exists|i: int, j: int|
                0 <= j < i < d.reservations@.len() && (#[trigger] d.reservations@[j]).ip_address@ == (
                #[trigger] d.reservations@[i]).ip_address@
                    && e == "DHCP reservation IP "@ + d.reservations@[i].ip_address@
                    + " is duplicated"@
        }),
{
    if d.global.enabled || d.subnets@.len() > 0 {
        let l = d.reservations@;
        let n = l.len() as int;
        lemma_subnets_errors(d.subnets@, d.subnets@.len() as int, e);
        lemma_reservation_errors(l, d.subnets@, n, e);
        append_holds(
            subnets_errors(d.subnets@, d.subnets@.len() as int),
            reservation_errors(l, d.subnets@, n),
            e,
        );
        if exists|i: int, j: int|
            0 <= j < i < l.len() && (#[trigger] l[j]).ip_address@ == (#[trigger] l[i]).ip_address@
                && e == "DHCP reservation IP "@
                + l[i].ip_address@ + " is duplicated"@ {
            let (i, j) = choose|i: int, j: int|
                0 <= j < i < l.len() && (#[trigger] l[j]).ip_address@ == (#[trigger] l[i]).ip_address@ && e
                    == "DHCP reservation IP "@ + l[i].ip_address@ + " is duplicated"@;
            assert(l[j].ip_address@ == l[i].ip_address@);
            assert(is_repeated_ip(l, i));
        }
        if exists|i: int|
            0 <= i < n && ((is_repeated_ip(l, i)
                && e == "DHCP reservation IP "@ + (#[trigger] l[i]).ip_address@ + " is duplicated"@)
                || placement_errors(l[i], d.subnets@).contains(e)) {
            let i = choose|i: int|
                0 <= i < n && ((is_repeated_ip(l, i) && e == "DHCP reservation IP "@ + (#[trigger] l[i]).ip_address@
                    + " is duplicated"@) || placement_errors(l[i], d.subnets@).contains(e));
            if is_repeated_ip(l, i) {
                let j = choose|j: int| 0 <= j < i && (#[trigger] l[j]).ip_address@ == l[i].ip_address@;
            }
        }
    }
}

/// Whatever there is to warn of a subnet is warned of.
pub proof fn every_warning_of_a_subnet_is_told(d: DhcpSection, i: int, e: Seq<char>)
    requires
        0 <= i < d.subnets@.len(),
        subnet_warnings(d.subnets@[i], d.global.accept_relayed).contains(e),
    ensures
        dhcp_warnings(d).contains(e),
{
    let n = d.subnets@.len() as int;
    let a = subnets_warnings(d.subnets@, d.global.accept_relayed, n);
    let b = network_warnings(d.subnets@, n);
    lemma_subnets_warnings(d.subnets@, d.global.accept_relayed, n, e);
    append_holds(a, b, e);
    append_holds(a + b, reservation_warnings(d.reservations@, d.subnets@, d.reservations@.len() as int), e);
}

proof fn lemma_reservation_warnings(l: Seq<DhcpReservationConfig>, subnets: Seq<DhcpSubnetConfig>, n: int, e: Seq<char>)
    requires
        0 <= n <= l.len(),
    ensures
        reservation_warnings(l, subnets, n).contains(e) <==> exists|i: int|
            0 <= i < n && placement_warnings(#[trigger] l[i], subnets).contains(e),
    decreases n,
{
    if n > 0 {
        lemma_reservation_warnings(l, subnets, n - 1, e);
        append_holds(reservation_warnings(l, subnets, n - 1), placement_warnings(l[n - 1], subnets), e);
    }
}

/// Whatever there is to warn of a reservation is warned of.
pub proof fn every_warning_of_a_reservation_is_told(d: DhcpSection, i: int, e: Seq<char>)
    requires
        d.global.enabled || d.subnets@.len() > 0,
        0 <= i < d.reservations@.len(),
        placement_warnings(d.reservations@[i], d.subnets@).contains(e),
    ensures
        dhcp_warnings(d).contains(e),
{
    let n = d.subnets@.len() as int;
    let a = subnets_warnings(d.subnets@, d.global.accept_relayed, n);
    let b = network_warnings(d.subnets@, n);
    lemma_reservation_warnings(d.reservations@, d.subnets@, d.reservations@.len() as int, e);
    append_holds(a + b, reservation_warnings(d.reservations@, d.subnets@, d.reservations@.len() as int), e);
}

proof fn lemma_network_warnings(l: Seq<DhcpSubnetConfig>, n: int, e: Seq<char>)
    requires
        0 <= n <= l.len(),
    ensures
        network_warnings(l, n).contains(e) <==> exists|i: int|
            0 <= i < n && is_repeated_network(l, i) && e == "DHCP: duplicate subnet "@ + (#[trigger] l[i]).network@,
    decreases n,
{
    if n > 0 {
        lemma_network_warnings(l, n - 1, e);
        let m = "DHCP: duplicate subnet "@ + l[n - 1].network@;
        let d = if is_repeated_network(l, n - 1) {
            seq![m]
        } else {
            Seq::<Seq<char>>::empty()
        };
        append_holds(network_warnings(l, n - 1), d, e);
        if is_repeated_network(l, n - 1) {
            assert(seq![m][0] == m);
        }
    }
}

/// Two subnets of one network that both hand out IPv4 addresses are warned of.
pub proof fn repeated_networks_are_told(d: DhcpSection, i: int, j: int)
    requires
        0 <= j < i < d.subnets@.len(),
        d.subnets@[i].network@ == d.subnets@[j].network@,
        d.subnets@[i].enabled && d.subnets@[j].enabled,
        d.subnets@[i].subnet_type@ != "prefix-delegation"@ && d.subnets@[j].subnet_type@ != "prefix-delegation"@,
        !is_ipv6(split(d.subnets@[i].network@, '/')[0]),
    ensures
        dhcp_warnings(d).contains("DHCP: duplicate subnet "@ + d.subnets@[i].network@),
{
    let l = d.subnets@;
    let n = l.len() as int;
    let e = "DHCP: duplicate subnet "@ + l[i].network@;
    let a = subnets_warnings(l, d.global.accept_relayed, n);
    let b = network_warnings(l, n);
    assert(crate::backup::dhcp::hands_out(l[j]) && crate::backup::dhcp::hands_out(l[i]));
    assert(is_repeated_network(l, i));
    lemma_network_warnings(l, n, e);
    append_holds(a, b, e);
    append_holds(a + b, reservation_warnings(d.reservations@, l, d.reservations@.len() as int), e);
}

/// A section in use is counted.
pub proof fn sections_are_counted(d: DhcpSection)
    requires
        d.global.enabled || d.subnets@.len() > 0,
    ensures
        dhcp_info(d).contains(dec(d.subnets@.len()) + " DHCP subnet(s) configured"@),
        d.reservations@.len() > 0 ==> dhcp_info(d).contains(dec(d.reservations@.len())
            + " DHCP reservation(s) configured"@),
        dhcp_info(d).len() == (if d.reservations@.len() > 0 {
            2int
        } else {
            1
        }),
{
    let i = dhcp_info(d);
    assert(i[0] == dec(d.subnets@.len()) + " DHCP subnet(s) configured"@);
    if d.reservations@.len() > 0 {
        assert(i[1] == dec(d.reservations@.len()) + " DHCP reservation(s) configured"@);
    }
}

} // verus!
