//! The DHCP section of a configuration: its subnets and reservations, and what
//! can be wrong with them.

use vstd::prelude::*;
use vstd::string::*;

use crate::backup::dhcp_settings::{DhcpDdnsSection, DhcpGlobalSection, DhcpHaSection};
use crate::kv::{items, items_of};
use crate::net::{
    in_subnet, ipv4, ipv4_in_subnet, ipv6_ok, is_hex, is_hex_char, is_ipv6, is_loopback, loopback, parse_ipv4,
    parse_v4_cidr, v4_cidr,
};
use crate::number::{dec, fmt_u64, fmt_usize, parse_u16, parse_u32, parse_u8, parsed};
use crate::text::{
    cat2, cat3, cat4, cat5, chars_of, push_line, same, split, split_pieces, split_text, trim, trimmed, views,
};

verus! {

/// An option that a subnet hands out beside the typed ones.
#[derive(Clone, Debug)]
pub struct DhcpOptionOverrideConfig {
    pub code: u8,
    /// `ip`, `ips`, `string`, `u8`, `u16`, `u32` or `hex`.
    pub value_type: String,
    pub value: String,
}

/// A subnet that addresses are handed out in.
#[derive(Clone, Debug)]
pub struct DhcpSubnetConfig {
    pub id: String,
    /// The network in CIDR form.
    pub network: String,
    pub pool_start: String,
    pub pool_end: String,
    pub gateway: String,
    pub dns_servers: Option<String>,
    pub domain_name: Option<String>,
    pub lease_time: Option<u32>,
    pub max_lease_time: Option<u32>,
    pub renewal_time: Option<u32>,
    pub rebinding_time: Option<u32>,
    pub preferred_time: Option<u32>,
    /// `address` or `prefix-delegation`.
    pub subnet_type: String,
    pub delegated_length: Option<u8>,
    pub enabled: bool,
    pub description: Option<String>,
    pub trusted_relays: Vec<String>,
    pub ntp_servers: Option<String>,
    pub options: Vec<DhcpOptionOverrideConfig>,
    pub created_at: String,
}

/// An address that is kept for one client.
#[derive(Clone, Debug)]
pub struct DhcpReservationConfig {
    pub id: String,
    pub subnet_id: Option<String>,
    pub mac_address: String,
    pub ip_address: String,
    pub hostname: Option<String>,
    pub client_id: Option<String>,
    pub description: Option<String>,
    pub created_at: String,
}

/// Everything that a configuration says of DHCP.
#[derive(Clone, Debug)]
pub struct DhcpSection {
    pub global: DhcpGlobalSection,
    pub subnets: Vec<DhcpSubnetConfig>,
    pub reservations: Vec<DhcpReservationConfig>,
    pub ddns: DhcpDdnsSection,
    pub dhcp_ha: DhcpHaSection,
}

// ---------------------------------------------------------------------------
// Option overrides
// ---------------------------------------------------------------------------

/// The option codes that the server keeps to itself.
pub open spec fn is_reserved_code(c: u8) -> bool {
    c == 0 || c == 1 || c == 28 || c == 50 || c == 51 || c == 53 || c == 54 || c == 55 || c == 57 || c == 58 || c == 59 || c
        == 82 || c == 255
}

/// The option codes that a typed field of the subnet sets already.
pub open spec fn is_colliding_code(c: u8) -> bool {
    c == 3 || c == 6 || c == 15 || c == 42
}

fn reserved_code(c: u8) -> (r: bool)
    ensures
        r == is_reserved_code(c),
{
    c == 0 || c == 1 || c == 28 || c == 50 || c == 51 || c == 53 || c == 54 || c == 55 || c == 57 || c == 58 || c == 59 || c
        == 82 || c == 255
}

fn colliding_code(c: u8) -> (r: bool)
    ensures
        r == is_colliding_code(c),
{
    c == 3 || c == 6 || c == 15 || c == 42
}

/// Every text of `l` is an IPv4 address.
pub open spec fn all_ipv4(l: Seq<Seq<char>>) -> bool {
    forall|i: int| 0 <= i < l.len() ==> ipv4(#[trigger] l[i]) is Some
}

/// Printable ASCII only.
pub open spec fn is_printable(v: Seq<char>) -> bool {
    forall|i: int| 0 <= i < v.len() ==> ' ' <= #[trigger] v[i] <= '~'
}

/// Hexadecimal digits only.
pub open spec fn is_all_hex(v: Seq<char>) -> bool {
    forall|i: int| 0 <= i < v.len() ==> is_hex(#[trigger] v[i])
}

/// A value that an option of type `t` can have.
pub open spec fn fits_type(t: Seq<char>, v: Seq<char>) -> bool {
    if t == "ip"@ {
        ipv4(v) is Some
    } else if t == "ips"@ {
        items(v, ',').len() > 0 && all_ipv4(items(v, ','))
    } else if t == "string"@ {
        v.len() <= 255 && is_printable(v)
    } else if t == "u8"@ {
        parsed(v, 255) is Some
    } else if t == "u16"@ {
        parsed(v, 65535) is Some
    } else if t == "u32"@ {
        parsed(v, u32::MAX as nat) is Some
    } else if t == "hex"@ {
        v.len() <= 510 && v.len() % 2 == 0 && is_all_hex(v)
    } else {
        false
    }
}

/// An option that may reach the server's configuration: the server refuses to
/// start on any other.
pub open spec fn is_safe_option(o: DhcpOptionOverrideConfig) -> bool {
    &&& !is_reserved_code(o.code)
    &&& !is_colliding_code(o.code)
    &&& trim(o.value@).len() > 0
    &&& fits_type(o.value_type@, trim(o.value@))
}

fn check_all_ipv4(l: &Vec<String>) -> (r: bool)
    ensures
        r == all_ipv4(views(l@)),
{
    let ghost all = views(l@);
    let mut i: usize = 0;
    while i < l.len()
        invariant
            i <= l@.len(),
            all == views(l@),
            forall|k: int| 0 <= k < i ==> ipv4(#[trigger] all[k]) is Some,
        decreases l.len() - i,
    {
        match parse_ipv4(l[i].as_str()) {
            Some(_) => {},
            None => {
                assert(ipv4(all[i as int]) is None);
                return false;
            },
        }
        i = i + 1;
    }
    true
}

fn printable(v: &Vec<char>) -> (r: bool)
    ensures
        r == is_printable(v@),
{
    let mut i: usize = 0;
    while i < v.len()
        invariant
            i <= v@.len(),
            forall|k: int| 0 <= k < i ==> ' ' <= #[trigger] v@[k] <= '~',
        decreases v.len() - i,
    {
        if !(' ' <= v[i] && v[i] <= '~') {
            return false;
        }
        i = i + 1;
    }
    true
}

fn all_hex(v: &Vec<char>) -> (r: bool)
    ensures
        r == is_all_hex(v@),
{
    let mut i: usize = 0;
    while i < v.len()
        invariant
            i <= v@.len(),
            forall|k: int| 0 <= k < i ==> is_hex(#[trigger] v@[k]),
        decreases v.len() - i,
    {
        if !is_hex_char(v[i]) {
            return false;
        }
        i = i + 1;
    }
    true
}

proof fn lemma_option_types_differ()
    ensures
        "ip"@.len() == 2,
        "ips"@.len() == 3,
        "ips"@[0] == 'i',
        "string"@.len() == 6,
        "u8"@.len() == 2,
        "u8"@[0] == 'u',
        "ip"@[0] == 'i',
        "u16"@.len() == 3,
        "u16"@[0] == 'u',
        "u16"@[1] == '1',
        "u32"@.len() == 3,
        "u32"@[0] == 'u',
        "u32"@[1] == '3',
        "hex"@.len() == 3,
        "hex"@[0] == 'h',
{
    reveal_strlit("ip");
    reveal_strlit("ips");
    reveal_strlit("string");
    reveal_strlit("u8");
    reveal_strlit("u16");
    reveal_strlit("u32");
    reveal_strlit("hex");
}

/// Whether an option may reach the server's configuration.
pub fn is_option_override_safe(o: &DhcpOptionOverrideConfig) -> (r: bool)
    ensures
        r == is_safe_option(*o),
{
    if reserved_code(o.code) || colliding_code(o.code) {
        return false;
    }
    let value = trimmed(o.value.as_str());
    let v = value.as_str();
    if v.is_empty() {
        return false;
    }
    proof {
        lemma_option_types_differ();
    }
    let t = o.value_type.as_str();
    let chars = chars_of(v);
    if same(t, "ip") {
        parse_ipv4(v).is_some()
    } else if same(t, "ips") {
        let parts = items_of(v, ',');
        assert(views(parts@).len() == parts@.len());
        parts.len() > 0 && check_all_ipv4(&parts)
    } else if same(t, "string") {
        chars.len() <= 255 && printable(&chars)
    } else if same(t, "u8") {
        parse_u8(v).is_some()
    } else if same(t, "u16") {
        parse_u16(v).is_some()
    } else if same(t, "u32") {
        parse_u32(v).is_some()
    } else if same(t, "hex") {
        chars.len() <= 510 && chars.len() % 2 == 0 && all_hex(&chars)
    } else {
        false
    }
}

/// The options of `l` that may reach the server, in order.
pub open spec fn safe_options(l: Seq<DhcpOptionOverrideConfig>) -> Seq<DhcpOptionOverrideConfig> {
    l.filter(|o: DhcpOptionOverrideConfig| is_safe_option(o))
}

/// A relay that may be trusted: an IPv4 address that is not this machine.
pub open spec fn is_usable_relay(r: Seq<char>) -> bool {
    match ipv4(trim(r)) {
        Some(ip) => !loopback(ip),
        None => false,
    }
}

/// Decides [`is_usable_relay`].
pub fn relay_is_usable(r: &str) -> (b: bool)
    ensures
        b == is_usable_relay(r@),
{
    let t = trimmed(r);
    match parse_ipv4(t.as_str()) {
        Some(ip) => !is_loopback(ip),
        None => false,
    }
}

/// The relays of `l` that may be trusted, in order.
pub open spec fn usable_relays(l: Seq<Seq<char>>) -> Seq<Seq<char>>
    decreases l.len(),
{
    if l.len() == 0 {
        Seq::<Seq<char>>::empty()
    } else if is_usable_relay(l.last()) {
        usable_relays(l.drop_last()).push(l.last())
    } else {
        usable_relays(l.drop_last())
    }
}

/// The relays of `l` that may be trusted, in order: what an older backup or a
/// hand-edited one holds beside them is left out.
pub fn keep_usable_relays(l: &Vec<String>) -> (r: Vec<String>)
    ensures
        views(r@) == usable_relays(views(l@)),
{
    let ghost all = views(l@);
    let mut r: Vec<String> = Vec::new();
    let mut i: usize = 0;
    assert(views(r@) =~= usable_relays(all.take(0)));
    while i < l.len()
        invariant
            i <= l@.len(),
            all == views(l@),
            views(r@) == usable_relays(all.take(i as int)),
        decreases l.len() - i,
    {
        assert(all.take(i + 1).drop_last() =~= all.take(i as int));
        if relay_is_usable(l[i].as_str()) {
            push_line(&mut r, l[i].clone());
        }
        i = i + 1;
    }
    assert(all.take(l@.len() as int) =~= all);
    r
}

/// The options of `l` that may reach the server, in order.
pub fn keep_safe_options(l: &Vec<DhcpOptionOverrideConfig>) -> (r: Vec<&DhcpOptionOverrideConfig>)
    ensures
        r@.len() == safe_options(l@).len(),
        forall|i: int| 0 <= i < r@.len() ==> *(#[trigger] r@[i]) == safe_options(l@)[i],
{
    let ghost p = |o: DhcpOptionOverrideConfig| is_safe_option(o);
    let mut r: Vec<&DhcpOptionOverrideConfig> = Vec::new();
    let mut i: usize = 0;
    proof {
        reveal(Seq::filter);
        assert(l@.take(0).filter(p) =~= Seq::<DhcpOptionOverrideConfig>::empty());
    }
    while i < l.len()
        invariant
            i <= l@.len(),
            p == (|o: DhcpOptionOverrideConfig| is_safe_option(o)),
            r@.len() == l@.take(i as int).filter(p).len(),
            forall|k: int| 0 <= k < r@.len() ==> *(#[trigger] r@[k]) == l@.take(i as int).filter(p)[k],
        decreases l.len() - i,
    {
        proof {
            reveal(Seq::filter);
            assert(l@.take(i + 1).drop_last() =~= l@.take(i as int));
        }
        if is_option_override_safe(&l[i]) {
            r.push(&l[i]);
        }
        i = i + 1;
    }
    assert(l@.take(l@.len() as int) =~= l@);
    r
}

// ---------------------------------------------------------------------------
// Checks of a subnet
// ---------------------------------------------------------------------------

/// What a message about a subnet starts with.
pub open spec fn about(network: Seq<char>) -> Seq<char> {
    "DHCP subnet "@ + network
}

/// A list of one message, or none.
pub open spec fn said_if(b: bool, m: Seq<char>) -> Seq<Seq<char>> {
    if b {
        seq![m]
    } else {
        Seq::<Seq<char>>::empty()
    }
}

/// What is wrong with the gateway of a subnet of `(net, prefix)`.
pub open spec fn gateway_errors(network: Seq<char>, gateway: Seq<char>, net: nat, prefix: nat) -> Seq<Seq<char>> {
    match ipv4(gateway) {
        Some(gw) => said_if(
            !in_subnet(gw, net, prefix),
            about(network) + ": gateway "@ + gateway + " is outside the subnet"@,
        ),
        None => said_if(
            gateway.len() > 0,
            about(network) + ": gateway '"@ + gateway + "' is not a valid IPv4 address"@,
        ),
    }
}

/// What is wrong with the address pool of a subnet of `(net, prefix)`.
pub open spec fn pool_errors(s: DhcpSubnetConfig, net: nat, prefix: nat) -> Seq<Seq<char>> {
    let network = s.network@;
    match (ipv4(s.pool_start@), ipv4(s.pool_end@)) {
        (Some(start), Some(end)) => said_if(
            start > end,
            about(network) + ": pool_start "@ + s.pool_start@ + " > pool_end "@ + s.pool_end@,
        ) + said_if(
            !in_subnet(start, net, prefix),
            about(network) + ": pool_start "@ + s.pool_start@ + " outside subnet"@,
        ) + said_if(!in_subnet(end, net, prefix), about(network) + ": pool_end "@ + s.pool_end@ + " outside subnet"@),
        _ => seq![about(network) + ": invalid pool range"@],
    }
}

/// What is wrong with one trusted relay.
pub open spec fn relay_errors(network: Seq<char>, relay: Seq<char>) -> Seq<Seq<char>> {
    match ipv4(relay) {
        Some(ip) => said_if(
            loopback(ip),
            about(network) + ": trusted relay "@ + relay + " is a loopback address"@,
        ),
        None => seq![about(network) + ": trusted relay '"@ + relay + "' is not a valid IPv4 address"@],
    }
}

/// What is wrong with the trusted relays.
pub open spec fn relays_errors(network: Seq<char>, relays: Seq<Seq<char>>) -> Seq<Seq<char>>
    decreases relays.len(),
{
    if relays.len() == 0 {
        Seq::<Seq<char>>::empty()
    } else {
        relays_errors(network, relays.drop_last()) + relay_errors(network, relays.last())
    }
}

/// An option in front of `i` has the code of the option at `i`.
pub open spec fn is_repeated_code(opts: Seq<DhcpOptionOverrideConfig>, i: int) -> bool {
    exists|j: int| 0 <= j < i && (#[trigger] opts[j]).code == opts[i].code
}

/// What is wrong with one option by itself.
pub open spec fn option_kind_errors(network: Seq<char>, o: DhcpOptionOverrideConfig) -> Seq<Seq<char>> {
    let code = dec(o.code as nat);
    if is_reserved_code(o.code) {
        seq![about(network) + ": option code "@ + code + " is reserved"@]
    } else if is_colliding_code(o.code) {
        seq![about(network) + ": option code "@ + code + " conflicts with a typed field (router/dns/domain/ntp)"@]
    } else if !is_safe_option(o) {
        seq![about(network) + ": option "@ + code + " has an invalid value for type '"@ + o.value_type@ + "'"@]
    } else {
        Seq::<Seq<char>>::empty()
    }
}

/// What is wrong with the first `n` options.
pub open spec fn options_errors(network: Seq<char>, opts: Seq<DhcpOptionOverrideConfig>, n: int) -> Seq<Seq<char>>
    decreases n,
{
    if n <= 0 {
        Seq::<Seq<char>>::empty()
    } else {
        let o = opts[n - 1];
        options_errors(network, opts, n - 1) + said_if(
            is_repeated_code(opts, n - 1),
            about(network) + ": option "@ + dec(o.code as nat) + " is duplicated"@,
        ) + option_kind_errors(network, o)
    }
}

/// A scope that is not one of IPv4 addresses: it delegates prefixes, or its
/// network is written with an IPv6 address.
pub open spec fn is_v6_scope(s: DhcpSubnetConfig) -> bool {
    s.subnet_type@ == "prefix-delegation"@ || is_ipv6(split(s.network@, '/')[0])
}

/// A subnet that is checked: enabled, of IPv4 addresses, with a network that is
/// one.
pub open spec fn is_checked_subnet(s: DhcpSubnetConfig) -> bool {
    s.enabled && !is_v6_scope(s) && v4_cidr(s.network@) is Some
}

/// The errors of one subnet.
pub open spec fn subnet_errors(s: DhcpSubnetConfig) -> Seq<Seq<char>> {
    if is_checked_subnet(s) {
        let (net, prefix) = v4_cidr(s.network@)->0;
        gateway_errors(s.network@, s.gateway@, net, prefix) + pool_errors(s, net, prefix) + relays_errors(
            s.network@,
            views(s.trusted_relays@),
        ) + options_errors(s.network@, s.options@, s.options@.len() as int)
    } else {
        Seq::<Seq<char>>::empty()
    }
}

/// The warnings of one subnet.
pub open spec fn subnet_warnings(s: DhcpSubnetConfig, accept_relayed: bool) -> Seq<Seq<char>> {
    if !s.enabled || is_v6_scope(s) {
        Seq::<Seq<char>>::empty()
    } else if v4_cidr(s.network@) is None {
        seq![about(s.network@) + ": invalid CIDR"@]
    } else {
        said_if(
            is_checked_subnet(s) && !accept_relayed && s.trusted_relays@.len() > 0,
            about(s.network@) + ": trusted_relays set but global accept_relayed is off — list will be ignored"@,
        )
    }
}

fn say_if(l: &mut Vec<String>, b: bool, m: String)
    ensures
        views(final(l)@) == views(old(l)@) + said_if(b, m@),
{
    let ghost before = views(l@);
    let ghost t = m@;
    if b {
        push_line(l, m);
    }
    assert(views(l@) =~= before + said_if(b, t));
}

fn about_text(network: &str) -> (r: String)
    ensures
        r@ == about(network@),
{
    cat2("DHCP subnet ", network)
}

fn push_gateway_errors(l: &mut Vec<String>, s: &DhcpSubnetConfig, net: u32, prefix: u8)
    requires
        prefix <= 32,
    ensures
        views(final(l)@) == views(old(l)@) + gateway_errors(s.network@, s.gateway@, net as nat, prefix as nat),
{
    let a = about_text(s.network.as_str());
    let gateway = s.gateway.as_str();
    match parse_ipv4(gateway) {
        Some(gw) => say_if(
            l,
            !ipv4_in_subnet(gw, net, prefix),
            cat4(a.as_str(), ": gateway ", gateway, " is outside the subnet"),
        ),
        None => say_if(
            l,
            !gateway.is_empty(),
            cat4(a.as_str(), ": gateway '", gateway, "' is not a valid IPv4 address"),
        ),
    }
}

fn push_pool_errors(l: &mut Vec<String>, s: &DhcpSubnetConfig, net: u32, prefix: u8)
    requires
        prefix <= 32,
    ensures
        views(final(l)@) == views(old(l)@) + pool_errors(*s, net as nat, prefix as nat),
{
    let ghost before = views(l@);
    let about = about_text(s.network.as_str());
    let a = about.as_str();
    let start_text = s.pool_start.as_str();
    let end_text = s.pool_end.as_str();
    match (parse_ipv4(start_text), parse_ipv4(end_text)) {
        (Some(start), Some(end)) => {
            say_if(l, start > end, cat5(a, ": pool_start ", start_text, " > pool_end ", end_text));
            say_if(
                l,
                !ipv4_in_subnet(start, net, prefix),
                cat4(a, ": pool_start ", start_text, " outside subnet"),
            );
            say_if(l, !ipv4_in_subnet(end, net, prefix), cat4(a, ": pool_end ", end_text, " outside subnet"));
        },
        _ => {
            push_line(l, cat2(a, ": invalid pool range"));
        },
    }
    assert(views(l@) =~= before + pool_errors(*s, net as nat, prefix as nat));
}

fn push_relay_errors(l: &mut Vec<String>, s: &DhcpSubnetConfig)
    ensures
        views(final(l)@) == views(old(l)@) + relays_errors(s.network@, views(s.trusted_relays@)),
{
    let ghost before = views(l@);
    let ghost all = views(s.trusted_relays@);
    let about = about_text(s.network.as_str());
    let a = about.as_str();
    let mut i: usize = 0;
    assert(before + relays_errors(s.network@, all.take(0)) =~= before);
    while i < s.trusted_relays.len()
        invariant
            i <= s.trusted_relays@.len(),
            all == views(s.trusted_relays@),
            a@ == crate::backup::dhcp::about(s.network@),
            views(l@) == before + relays_errors(s.network@, all.take(i as int)),
        decreases s.trusted_relays.len() - i,
    {
        let ghost mid = relays_errors(s.network@, all.take(i as int));
        let ghost one = relay_errors(s.network@, all[i as int]);
        assert(all.take(i + 1).drop_last() =~= all.take(i as int));
        let relay = s.trusted_relays[i].as_str();
        match parse_ipv4(relay) {
            Some(ip) => say_if(
                l,
                is_loopback(ip),
                cat4(a, ": trusted relay ", relay, " is a loopback address"),
            ),
            None => push_line(l, cat4(a, ": trusted relay '", relay, "' is not a valid IPv4 address")),
        }
        assert(views(l@) =~= before + (mid + one));
        i = i + 1;
    }
    assert(all.take(s.trusted_relays@.len() as int) =~= all);
}

fn repeated_code(opts: &Vec<DhcpOptionOverrideConfig>, i: usize) -> (r: bool)
    requires
        i < opts@.len(),
    ensures
        r == is_repeated_code(opts@, i as int),
{
    let mut j: usize = 0;
    while j < i
        invariant
            j <= i < opts@.len(),
            forall|k: int| 0 <= k < j ==> (#[trigger] opts@[k]).code != opts@[i as int].code,
        decreases i - j,
    {
        if opts[j].code == opts[i].code {
            assert(opts@[j as int].code == opts@[i as int].code);
            return true;
        }
        j = j + 1;
    }
    false
}

fn push_option_kind_errors(l: &mut Vec<String>, network: &str, o: &DhcpOptionOverrideConfig)
    ensures
        views(final(l)@) == views(old(l)@) + option_kind_errors(network@, *o),
{
    let ghost before = views(l@);
    let about = about_text(network);
    let a = about.as_str();
    let code_text = fmt_u64(o.code as u64);
    let code = code_text.as_str();
    if reserved_code(o.code) {
        push_line(l, cat4(a, ": option code ", code, " is reserved"));
    } else if colliding_code(o.code) {
        push_line(l, cat4(a, ": option code ", code, " conflicts with a typed field (router/dns/domain/ntp)"));
    } else if !is_option_override_safe(o) {
        let mut m = cat5(a, ": option ", code, " has an invalid value for type '", o.value_type.as_str());
        m.append("'");
        push_line(l, m);
    }
    assert(views(l@) =~= before + option_kind_errors(network@, *o));
}

fn push_option_errors(l: &mut Vec<String>, network: &str, opts: &Vec<DhcpOptionOverrideConfig>)
    ensures
        views(final(l)@) == views(old(l)@) + options_errors(network@, opts@, opts@.len() as int),
{
    let ghost before = views(l@);
    let about = about_text(network);
    let mut i: usize = 0;
    assert(before + options_errors(network@, opts@, 0) =~= before);
    while i < opts.len()
        invariant
            i <= opts@.len(),
            about@ == crate::backup::dhcp::about(network@),
            views(l@) == before + options_errors(network@, opts@, i as int),
        decreases opts.len() - i,
    {
        let ghost mid = options_errors(network@, opts@, i as int);
        let code = fmt_u64(opts[i].code as u64);
        let repeated = repeated_code(opts, i);
        let ghost dup = said_if(
            is_repeated_code(opts@, i as int),
            crate::backup::dhcp::about(network@) + ": option "@ + dec(opts@[i as int].code as nat) + " is duplicated"@,
        );
        say_if(l, repeated, cat4(about.as_str(), ": option ", code.as_str(), " is duplicated"));
        push_option_kind_errors(l, network, &opts[i]);
        assert(views(l@) =~= before + (mid + dup + option_kind_errors(network@, opts@[i as int])));
        i = i + 1;
    }
}

fn v6_scope(s: &DhcpSubnetConfig) -> (r: bool)
    ensures
        r == is_v6_scope(*s),
{
    if same(s.subnet_type.as_str(), "prefix-delegation") {
        return true;
    }
    let p = split_text(s.network.as_str(), '/');
    proof {
        split_pieces(s.network@, '/');
        assert(views(p@).len() == p@.len());
    }
    ipv6_ok(p[0].as_str())
}

/// Adds the errors and the warnings of one subnet.
fn check_subnet(errors: &mut Vec<String>, warnings: &mut Vec<String>, s: &DhcpSubnetConfig, accept_relayed: bool)
    ensures
        views(final(errors)@) == views(old(errors)@) + subnet_errors(*s),
        views(final(warnings)@) == views(old(warnings)@) + subnet_warnings(*s, accept_relayed),
{
    let ghost e0 = views(errors@);
    let ghost w0 = views(warnings@);
    if !s.enabled || v6_scope(s) {
        assert(e0 + subnet_errors(*s) =~= e0);
        assert(w0 + subnet_warnings(*s, accept_relayed) =~= w0);
        return ;
    }
    let about = about_text(s.network.as_str());
    match parse_v4_cidr(s.network.as_str()) {
        None => {
            push_line(warnings, cat2(about.as_str(), ": invalid CIDR"));
            assert(e0 + subnet_errors(*s) =~= e0);
            assert(views(warnings@) =~= w0 + subnet_warnings(*s, accept_relayed));
        },
        Some((net, prefix)) => {
            push_gateway_errors(errors, s, net, prefix);
            push_pool_errors(errors, s, net, prefix);
            push_relay_errors(errors, s);
            push_option_errors(errors, s.network.as_str(), &s.options);
            assert(views(errors@) =~= e0 + subnet_errors(*s));
            say_if(
                warnings,
                !accept_relayed && s.trusted_relays.len() > 0,
                cat2(
                    about.as_str(),
                    ": trusted_relays set but global accept_relayed is off — list will be ignored",
                ),
            );
        },
    }
}

// ---------------------------------------------------------------------------
// Checks of the whole section
// ---------------------------------------------------------------------------

/// The errors of the first `n` subnets.
pub open spec fn subnets_errors(l: Seq<DhcpSubnetConfig>, n: int) -> Seq<Seq<char>>
    decreases n,
{
    if n <= 0 {
        Seq::<Seq<char>>::empty()
    } else {
        subnets_errors(l, n - 1) + subnet_errors(l[n - 1])
    }
}

/// The warnings of the first `n` subnets.
pub open spec fn subnets_warnings(l: Seq<DhcpSubnetConfig>, accept_relayed: bool, n: int) -> Seq<Seq<char>>
    decreases n,
{
    if n <= 0 {
        Seq::<Seq<char>>::empty()
    } else {
        subnets_warnings(l, accept_relayed, n - 1) + subnet_warnings(l[n - 1], accept_relayed)
    }
}

/// A subnet that hands out addresses.
pub open spec fn hands_out(s: DhcpSubnetConfig) -> bool {
    s.enabled && !is_v6_scope(s)
}

/// The subnet at `i` hands out addresses of a network that one in front of it
/// hands out already.
pub open spec fn is_repeated_network(l: Seq<DhcpSubnetConfig>, i: int) -> bool {
    hands_out(l[i]) && exists|j: int| 0 <= j < i && hands_out(#[trigger] l[j]) && l[j].network@ == l[i].network@
}

/// The warnings about networks that occur twice among the first `n` subnets.
pub open spec fn network_warnings(l: Seq<DhcpSubnetConfig>, n: int) -> Seq<Seq<char>>
    decreases n,
{
    if n <= 0 {
        Seq::<Seq<char>>::empty()
    } else {
        network_warnings(l, n - 1) + said_if(
            is_repeated_network(l, n - 1),
            "DHCP: duplicate subnet "@ + l[n - 1].network@,
        )
    }
}

/// The index of the first subnet with the identifier `id`, or the number of
/// subnets.
pub open spec fn subnet_index(l: Seq<DhcpSubnetConfig>, id: Seq<char>) -> int
    decreases l.len(),
{
    if l.len() == 0 || l[0].id@ == id {
        0
    } else {
        1 + subnet_index(l.skip(1), id)
    }
}

/// A reservation in front of `i` has the address of the one at `i`.
pub open spec fn is_repeated_ip(l: Seq<DhcpReservationConfig>, i: int) -> bool {
    exists|j: int| 0 <= j < i && (#[trigger] l[j]).ip_address@ == l[i].ip_address@
}

/// A reservation whose address lies outside the subnet it names.
pub open spec fn is_misplaced(r: DhcpReservationConfig, s: DhcpSubnetConfig) -> bool {
    match (v4_cidr(s.network@), ipv4(r.ip_address@)) {
        (Some((net, prefix)), Some(ip)) => !in_subnet(ip, net, prefix),
        _ => false,
    }
}

/// The error about a reservation outside its subnet.
pub open spec fn placement_errors(r: DhcpReservationConfig, subnets: Seq<DhcpSubnetConfig>) -> Seq<Seq<char>> {
    match r.subnet_id {
        Some(id) => {
            let k = subnet_index(subnets, id@);
            said_if(
                k < subnets.len() && is_misplaced(r, subnets[k]),
                "DHCP reservation "@ + r.ip_address@ + " (MAC "@ + r.mac_address@ + ") is outside subnet "@
                    + subnets[k].network@,
            )
        },
        None => Seq::<Seq<char>>::empty(),
    }
}

/// The warning about a reservation whose subnet is not there.
pub open spec fn placement_warnings(r: DhcpReservationConfig, subnets: Seq<DhcpSubnetConfig>) -> Seq<Seq<char>> {
    match r.subnet_id {
        Some(id) => said_if(
            subnet_index(subnets, id@) >= subnets.len(),
            "DHCP reservation "@ + r.ip_address@ + " references missing subnet "@ + id@,
        ),
        None => Seq::<Seq<char>>::empty(),
    }
}

/// The errors of the first `n` reservations.
pub open spec fn reservation_errors(l: Seq<DhcpReservationConfig>, subnets: Seq<DhcpSubnetConfig>, n: int) -> Seq<
    Seq<char>,
>
    decreases n,
{
    if n <= 0 {
        Seq::<Seq<char>>::empty()
    } else {
        reservation_errors(l, subnets, n - 1) + said_if(
            is_repeated_ip(l, n - 1),
            "DHCP reservation IP "@ + l[n - 1].ip_address@ + " is duplicated"@,
        ) + placement_errors(l[n - 1], subnets)
    }
}

/// The warnings of the first `n` reservations.
pub open spec fn reservation_warnings(l: Seq<DhcpReservationConfig>, subnets: Seq<DhcpSubnetConfig>, n: int) -> Seq<
    Seq<char>,
>
    decreases n,
{
    if n <= 0 {
        Seq::<Seq<char>>::empty()
    } else {
        reservation_warnings(l, subnets, n - 1) + placement_warnings(l[n - 1], subnets)
    }
}

/// DHCP is in use: the server is on, or there are subnets.
pub open spec fn is_in_use(d: DhcpSection) -> bool {
    d.global.enabled || d.subnets@.len() > 0
}

/// The errors of a DHCP section.
pub open spec fn dhcp_errors(d: DhcpSection) -> Seq<Seq<char>> {
    if is_in_use(d) {
        subnets_errors(d.subnets@, d.subnets@.len() as int) + reservation_errors(
            d.reservations@,
            d.subnets@,
            d.reservations@.len() as int,
        )
    } else {
        Seq::<Seq<char>>::empty()
    }
}

/// The warnings of a DHCP section.
pub open spec fn dhcp_warnings(d: DhcpSection) -> Seq<Seq<char>> {
    if is_in_use(d) {
        subnets_warnings(d.subnets@, d.global.accept_relayed, d.subnets@.len() as int) + network_warnings(
            d.subnets@,
            d.subnets@.len() as int,
        ) + reservation_warnings(d.reservations@, d.subnets@, d.reservations@.len() as int)
    } else {
        Seq::<Seq<char>>::empty()
    }
}

/// What there is to know of a DHCP section.
pub open spec fn dhcp_info(d: DhcpSection) -> Seq<Seq<char>> {
    if is_in_use(d) {
        seq![dec(d.subnets@.len()) + " DHCP subnet(s) configured"@] + said_if(
            d.reservations@.len() > 0,
            dec(d.reservations@.len()) + " DHCP reservation(s) configured"@,
        )
    } else {
        Seq::<Seq<char>>::empty()
    }
}

fn repeated_network(l: &Vec<DhcpSubnetConfig>, i: usize) -> (r: bool)
    requires
        i < l@.len(),
    ensures
        r == is_repeated_network(l@, i as int),
{
    if !l[i].enabled || v6_scope(&l[i]) {
        return false;
    }
    let mut j: usize = 0;
    while j < i
        invariant
            j <= i < l@.len(),
            hands_out(l@[i as int]),
            forall|k: int| 0 <= k < j ==> !(hands_out(#[trigger] l@[k]) && l@[k].network@ == l@[i as int].network@),
        decreases i - j,
    {
        if l[j].enabled && !v6_scope(&l[j]) && same(l[j].network.as_str(), l[i].network.as_str()) {
            assert(hands_out(l@[j as int]));
            return true;
        }
        j = j + 1;
    }
    false
}

fn repeated_ip(l: &Vec<DhcpReservationConfig>, i: usize) -> (r: bool)
    requires
        i < l@.len(),
    ensures
        r == is_repeated_ip(l@, i as int),
{
    let mut j: usize = 0;
    while j < i
        invariant
            j <= i < l@.len(),
            forall|k: int| 0 <= k < j ==> (#[trigger] l@[k]).ip_address@ != l@[i as int].ip_address@,
        decreases i - j,
    {
        if same(l[j].ip_address.as_str(), l[i].ip_address.as_str()) {
            assert(l@[j as int].ip_address@ == l@[i as int].ip_address@);
            return true;
        }
        j = j + 1;
    }
    false
}

fn find_subnet(l: &Vec<DhcpSubnetConfig>, id: &str) -> (k: usize)
    ensures
        k == subnet_index(l@, id@),
        k <= l@.len(),
{
    let mut i: usize = 0;
    assert(l@.skip(0) =~= l@);
    while i < l.len()
        invariant
            i <= l@.len(),
            subnet_index(l@, id@) == i + subnet_index(l@.skip(i as int), id@),
        decreases l.len() - i,
    {
        assert(l@.skip(i as int)[0] == l@[i as int]);
        if same(l[i].id.as_str(), id) {
            return i;
        }
        assert(l@.skip(i as int).skip(1) =~= l@.skip(i + 1));
        i = i + 1;
    }
    i
}

fn misplaced(r: &DhcpReservationConfig, s: &DhcpSubnetConfig) -> (b: bool)
    ensures
        b == is_misplaced(*r, *s),
{
    match (parse_v4_cidr(s.network.as_str()), parse_ipv4(r.ip_address.as_str())) {
        (Some((net, prefix)), Some(ip)) => !ipv4_in_subnet(ip, net, prefix),
        _ => false,
    }
}

fn check_placement(
    errors: &mut Vec<String>,
    warnings: &mut Vec<String>,
    r: &DhcpReservationConfig,
    subnets: &Vec<DhcpSubnetConfig>,
)
    ensures
        views(final(errors)@) == views(old(errors)@) + placement_errors(*r, subnets@),
        views(final(warnings)@) == views(old(warnings)@) + placement_warnings(*r, subnets@),
{
    let ghost e0 = views(errors@);
    let ghost w0 = views(warnings@);
    match &r.subnet_id {
        Some(id) => {
            let k = find_subnet(subnets, id.as_str());
            if k < subnets.len() {
                let mut m = cat5(
                    "DHCP reservation ",
                    r.ip_address.as_str(),
                    " (MAC ",
                    r.mac_address.as_str(),
                    ") is outside subnet ",
                );
                m.append(subnets[k].network.as_str());
                say_if(errors, misplaced(r, &subnets[k]), m);
                assert(w0 + placement_warnings(*r, subnets@) =~= w0);
            } else {
                push_line(
                    warnings,
                    cat4("DHCP reservation ", r.ip_address.as_str(), " references missing subnet ", id.as_str()),
                );
                assert(e0 + placement_errors(*r, subnets@) =~= e0);
                assert(views(warnings@) =~= w0 + placement_warnings(*r, subnets@));
            }
        },
        None => {
            assert(e0 + placement_errors(*r, subnets@) =~= e0);
            assert(w0 + placement_warnings(*r, subnets@) =~= w0);
        },
    }
}

fn check_subnets(errors: &mut Vec<String>, warnings: &mut Vec<String>, l: &Vec<DhcpSubnetConfig>, accept_relayed: bool)
    ensures
        views(final(errors)@) == views(old(errors)@) + subnets_errors(l@, l@.len() as int),
        views(final(warnings)@) == views(old(warnings)@) + subnets_warnings(l@, accept_relayed, l@.len() as int),
{
    let ghost e0 = views(errors@);
    let ghost w0 = views(warnings@);
    let mut i: usize = 0;
    assert(e0 + subnets_errors(l@, 0) =~= e0);
    assert(w0 + subnets_warnings(l@, accept_relayed, 0) =~= w0);
    while i < l.len()
        invariant
            i <= l@.len(),
            views(errors@) == e0 + subnets_errors(l@, i as int),
            views(warnings@) == w0 + subnets_warnings(l@, accept_relayed, i as int),
        decreases l.len() - i,
    {
        check_subnet(errors, warnings, &l[i], accept_relayed);
        assert(views(errors@) =~= e0 + subnets_errors(l@, i + 1));
        assert(views(warnings@) =~= w0 + subnets_warnings(l@, accept_relayed, i + 1));
        i = i + 1;
    }
}

fn check_networks(warnings: &mut Vec<String>, l: &Vec<DhcpSubnetConfig>)
    ensures
        views(final(warnings)@) == views(old(warnings)@) + network_warnings(l@, l@.len() as int),
{
    let ghost w0 = views(warnings@);
    let mut i: usize = 0;
    assert(w0 + network_warnings(l@, 0) =~= w0);
    while i < l.len()
        invariant
            i <= l@.len(),
            views(warnings@) == w0 + network_warnings(l@, i as int),
        decreases l.len() - i,
    {
        let repeated = repeated_network(l, i);
        say_if(warnings, repeated, cat2("DHCP: duplicate subnet ", l[i].network.as_str()));
        assert(views(warnings@) =~= w0 + network_warnings(l@, i + 1));
        i = i + 1;
    }
}

fn check_reservations(
    errors: &mut Vec<String>,
    warnings: &mut Vec<String>,
    l: &Vec<DhcpReservationConfig>,
    subnets: &Vec<DhcpSubnetConfig>,
)
    ensures
        views(final(errors)@) == views(old(errors)@) + reservation_errors(l@, subnets@, l@.len() as int),
        views(final(warnings)@) == views(old(warnings)@) + reservation_warnings(l@, subnets@, l@.len() as int),
{
    let ghost e0 = views(errors@);
    let ghost w0 = views(warnings@);
    let mut i: usize = 0;
    assert(e0 + reservation_errors(l@, subnets@, 0) =~= e0);
    assert(w0 + reservation_warnings(l@, subnets@, 0) =~= w0);
    while i < l.len()
        invariant
            i <= l@.len(),
            views(errors@) == e0 + reservation_errors(l@, subnets@, i as int),
            views(warnings@) == w0 + reservation_warnings(l@, subnets@, i as int),
        decreases l.len() - i,
    {
        let repeated = repeated_ip(l, i);
        say_if(errors, repeated, cat3("DHCP reservation IP ", l[i].ip_address.as_str(), " is duplicated"));
        check_placement(errors, warnings, &l[i], subnets);
        assert(views(errors@) =~= e0 + reservation_errors(l@, subnets@, i + 1));
        assert(views(warnings@) =~= w0 + reservation_warnings(l@, subnets@, i + 1));
        i = i + 1;
    }
}

/// Checks a DHCP section and adds what there is to say of it.
pub fn validate_dhcp(d: &DhcpSection, errors: &mut Vec<String>, warnings: &mut Vec<String>, info: &mut Vec<String>)
    ensures
        views(final(errors)@) == views(old(errors)@) + dhcp_errors(*d),
        views(final(warnings)@) == views(old(warnings)@) + dhcp_warnings(*d),
        views(final(info)@) == views(old(info)@) + dhcp_info(*d),
{
    let ghost e0 = views(errors@);
    let ghost w0 = views(warnings@);
    let ghost i0 = views(info@);
    if !d.global.enabled && d.subnets.len() == 0 {
        assert(e0 + dhcp_errors(*d) =~= e0);
        assert(w0 + dhcp_warnings(*d) =~= w0);
        assert(i0 + dhcp_info(*d) =~= i0);
        return ;
    }
    let n = fmt_usize(d.subnets.len());
    push_line(info, cat2(n.as_str(), " DHCP subnet(s) configured"));
    let n = fmt_usize(d.reservations.len());
    say_if(info, d.reservations.len() > 0, cat2(n.as_str(), " DHCP reservation(s) configured"));
    assert(views(info@) =~= i0 + dhcp_info(*d));
    check_subnets(errors, warnings, &d.subnets, d.global.accept_relayed);
    check_networks(warnings, &d.subnets);
    check_reservations(errors, warnings, &d.reservations, &d.subnets);
    assert(views(errors@) =~= e0 + dhcp_errors(*d));
    assert(views(warnings@) =~= w0 + dhcp_warnings(*d));
}

} // verus!
