//! The check of the running configuration.

use vstd::prelude::*;
use vstd::string::*;

use crate::backup::convert::Rule;
use crate::backup::current::{nameservers, resolv_nameservers};
use crate::backup::dhcp::{dhcp_errors, dhcp_info, dhcp_warnings, validate_dhcp, DhcpSection};
use crate::backup::model::Address;
use crate::identifiers::EntityId;
use crate::lists::{append_holds, push_holds};
use crate::number::{dec, dec_int, fmt_i64, fmt_usize};
use crate::text::{cat2, cat3, cat5, chars_of, lines, list_contains, push_line, same, text_between, views};

verus! {

/// What a check has found: the configuration is valid where there is no error.
#[derive(Clone, Debug)]
pub struct ConfigCheck {
    pub valid: bool,
    pub errors: Vec<String>,
    pub warnings: Vec<String>,
    pub info: Vec<String>,
}

/// What tells two translations apart.
#[derive(Clone, Debug)]
pub struct NatForward {
    pub interface: String,
    pub protocol: String,
    pub redirect: String,
}

/// What was read for a check.
#[derive(Clone, Debug)]
pub struct CheckReadings {
    pub rules: Vec<Rule>,
    pub nat: Vec<NatForward>,
    pub geoip_rules: usize,
    pub wg_tunnels: usize,
    pub ipsec_sas: usize,
    pub ipsec_tunnels: usize,
    /// The text of `/etc/resolv.conf`, empty where it could not be read.
    pub resolv_conf: String,
    /// The number of enabled static routes.
    pub static_routes: i64,
    pub pf_responds: bool,
    pub dhcp: DhcpSection,
}

/// The rule lets everything pass: from anywhere to anywhere, on every port.
pub open spec fn passes_everything(r: Rule) -> bool {
    r.action@ == "pass"@ && r.rule_match.src_addr is Any && r.rule_match.dst_addr is Any && r.rule_match.dst_port is None
}

/// The name under which a rule is reported: its label, or the start of its
/// identifier.
pub open spec fn rule_name(r: Rule) -> Seq<char> {
    match r.label {
        Some(l) => l@,
        None => match r.id {
            EntityId::Kept(t) => t@.take(8),
            EntityId::Fresh => Seq::<char>::empty(),
        },
    }
}

/// A stored rule: its identifier has at least eight characters.
pub open spec fn has_long_id(r: Rule) -> bool {
    r.id matches EntityId::Kept(t) && t@.len() >= 8
}

/// One warning for each rule that lets everything pass.
pub open spec fn permissive_warnings(v: Seq<Rule>) -> Seq<Seq<char>>
    decreases v.len(),
{
    if v.len() == 0 {
        Seq::<Seq<char>>::empty()
    } else if passes_everything(v.last()) {
        permissive_warnings(v.drop_last()).push(
            "Rule '"@ + rule_name(v.last()) + "' passes all traffic (any -> any, no port restriction)"@,
        )
    } else {
        permissive_warnings(v.drop_last())
    }
}

/// What two translations that forward alike have in common.
pub open spec fn forward_key(n: NatForward) -> Seq<char> {
    n.interface@ + ":"@ + n.protocol@ + ":"@ + n.redirect@
}

/// The keys of the translations.
pub open spec fn forward_keys(v: Seq<NatForward>) -> Seq<Seq<char>> {
    v.map_values(|n: NatForward| forward_key(n))
}

/// One warning for each translation that forwards as one before it does.
pub open spec fn duplicate_warnings(v: Seq<NatForward>) -> Seq<Seq<char>>
    decreases v.len(),
{
    if v.len() == 0 {
        Seq::<Seq<char>>::empty()
    } else if forward_keys(v.drop_last()).contains(forward_key(v.last())) {
        duplicate_warnings(v.drop_last()).push("Possible duplicate NAT forward on "@ + v.last().interface@)
    } else {
        duplicate_warnings(v.drop_last())
    }
}

/// `line` where `cond` holds, nothing elsewhere.
pub open spec fn line_if(cond: bool, line: Seq<char>) -> Seq<Seq<char>> {
    if cond {
        Seq::<Seq<char>>::empty().push(line)
    } else {
        Seq::<Seq<char>>::empty()
    }
}

/// The errors of a check.
pub open spec fn check_errors(c: CheckReadings) -> Seq<Seq<char>> {
    line_if(nameservers(lines(c.resolv_conf@)).len() == 0, "No DNS nameservers configured in /etc/resolv.conf"@)
        + dhcp_errors(c.dhcp)
}

/// The warnings of a check.
pub open spec fn check_warnings(c: CheckReadings) -> Seq<Seq<char>> {
    permissive_warnings(c.rules@) + duplicate_warnings(c.nat@) + line_if(
        !c.pf_responds,
        "pf firewall is not responding — rules may not be loaded"@,
    ) + line_if(
        c.rules@.len() == 0,
        "No firewall rules configured — all traffic may be blocked or allowed by default"@,
    ) + dhcp_warnings(c.dhcp)
}

/// What a check reports.
pub open spec fn check_info(c: CheckReadings) -> Seq<Seq<char>> {
    let servers = nameservers(lines(c.resolv_conf@)).len();
    Seq::<Seq<char>>::empty().push(dec(c.rules@.len()) + " firewall rules configured"@).push(
        dec(c.nat@.len()) + " NAT rules configured"@,
    ) + line_if(c.geoip_rules > 0, dec(c.geoip_rules as nat) + " Geo-IP rules configured"@) + line_if(
        c.wg_tunnels > 0,
        dec(c.wg_tunnels as nat) + " WireGuard tunnel(s)"@,
    ) + line_if(c.ipsec_sas > 0, dec(c.ipsec_sas as nat) + " legacy IPsec SA record(s)"@) + line_if(
        c.ipsec_tunnels > 0,
        dec(c.ipsec_tunnels as nat) + " IPsec tunnel(s)"@,
    ) + line_if(servers > 0, dec(servers) + " DNS nameserver(s) configured"@) + line_if(
        c.static_routes > 0,
        dec_int(c.static_routes as int) + " static route(s)"@,
    ) + line_if(c.pf_responds, "pf firewall is responding"@) + dhcp_info(c.dhcp)
}

fn is_any(a: &Address) -> (r: bool)
    ensures
        r == (a is Any),
{
    match a {
        Address::Any => true,
        Address::Literal(_) => false,
    }
}

fn name_of_rule(r: &Rule) -> (s: String)
    requires
        has_long_id(*r),
    ensures
        s@ == rule_name(*r),
{
    match &r.label {
        Some(l) => l.clone(),
        None => match &r.id {
            EntityId::Kept(t) => {
                let chars = chars_of(t.as_str());
                let s = text_between(&chars, 0, 8);
                assert(s@ =~= t@.take(8));
                s
            },
            EntityId::Fresh => String::new(),
        },
    }
}

fn push_permissive(out: &mut Vec<String>, v: &Vec<Rule>)
    requires
        forall|i: int| 0 <= i < v@.len() ==> has_long_id(#[trigger] v@[i]),
    ensures
        views(final(out)@) == views(old(out)@) + permissive_warnings(v@),
{
    let ghost before = views(out@);
    let mut i: usize = 0;
    assert(before + permissive_warnings(v@.take(0)) =~= before);
    while i < v.len()
        invariant
            i <= v@.len(),
            forall|i: int| 0 <= i < v@.len() ==> has_long_id(#[trigger] v@[i]),
            views(out@) == before + permissive_warnings(v@.take(i as int)),
        decreases v.len() - i,
    {
        assert(v@.take(i + 1).drop_last() =~= v@.take(i as int));
        assert(v@.take(i + 1).last() == v@[i as int]);
        let r = &v[i];
        assert(has_long_id(v@[i as int]));
        if same(r.action.as_str(), "pass") && is_any(&r.rule_match.src_addr) && is_any(&r.rule_match.dst_addr)
            && r.rule_match.dst_port.is_none() {
            let name = name_of_rule(r);
            push_line(out, cat3("Rule '", name.as_str(), "' passes all traffic (any -> any, no port restriction)"));
        }
        assert(views(out@) =~= before + permissive_warnings(v@.take(i + 1)));
        i = i + 1;
    }
    assert(v@.take(v@.len() as int) =~= v@);
}

fn push_duplicates(out: &mut Vec<String>, v: &Vec<NatForward>)
    ensures
        views(final(out)@) == views(old(out)@) + duplicate_warnings(v@),
{
    let ghost before = views(out@);
    let mut seen: Vec<String> = Vec::new();
    let mut i: usize = 0;
    assert(before + duplicate_warnings(v@.take(0)) =~= before);
    assert(views(seen@) =~= forward_keys(v@.take(0)));
    while i < v.len()
        invariant
            i <= v@.len(),
            views(seen@) == forward_keys(v@.take(i as int)),
            views(out@) == before + duplicate_warnings(v@.take(i as int)),
        decreases v.len() - i,
    {
        assert(v@.take(i + 1).drop_last() =~= v@.take(i as int));
        assert(v@.take(i + 1).last() == v@[i as int]);
        let n = &v[i];
        let key = cat5(n.interface.as_str(), ":", n.protocol.as_str(), ":", n.redirect.as_str());
        if list_contains(&seen, key.as_str()) {
            push_line(out, cat2("Possible duplicate NAT forward on ", n.interface.as_str()));
        }
        push_line(&mut seen, key);
        assert(views(seen@) =~= forward_keys(v@.take(i + 1)));
        assert(views(out@) =~= before + duplicate_warnings(v@.take(i + 1)));
        i = i + 1;
    }
    assert(v@.take(v@.len() as int) =~= v@);
}

fn push_if(out: &mut Vec<String>, cond: bool, line: String)
    ensures
        views(final(out)@) == views(old(out)@) + line_if(cond, line@),
{
    let ghost before = views(out@);
    if cond {
        push_line(out, line);
        assert(views(out@) =~= before + line_if(cond, line@));
    } else {
        assert(before =~= before + line_if(cond, line@));
    }
}

fn counted(n: usize, what: &str) -> (r: String)
    ensures
        r@ == dec(n as nat) + what@,
{
    let number = fmt_usize(n);
    cat2(number.as_str(), what)
}

/// Checks the running configuration.
pub fn check_config(c: &CheckReadings) -> (r: ConfigCheck)
    requires
        forall|i: int| 0 <= i < c.rules@.len() ==> has_long_id(#[trigger] c.rules@[i]),
    ensures
        views(r.errors@) == check_errors(*c),
        views(r.warnings@) == check_warnings(*c),
        views(r.info@) == check_info(*c),
        r.valid == (check_errors(*c).len() == 0),
{
    let mut errors: Vec<String> = Vec::new();
    let mut warnings: Vec<String> = Vec::new();
    let mut info: Vec<String> = Vec::new();
    assert(views(errors@) =~= Seq::<Seq<char>>::empty());
    assert(views(warnings@) =~= Seq::<Seq<char>>::empty());
    assert(views(info@) =~= Seq::<Seq<char>>::empty());
    push_line(&mut info, counted(c.rules.len(), " firewall rules configured"));
    push_permissive(&mut warnings, &c.rules);
    push_line(&mut info, counted(c.nat.len(), " NAT rules configured"));
    push_duplicates(&mut warnings, &c.nat);
    push_if(&mut info, c.geoip_rules > 0, counted(c.geoip_rules, " Geo-IP rules configured"));
    push_if(&mut info, c.wg_tunnels > 0, counted(c.wg_tunnels, " WireGuard tunnel(s)"));
    push_if(&mut info, c.ipsec_sas > 0, counted(c.ipsec_sas, " legacy IPsec SA record(s)"));
    push_if(&mut info, c.ipsec_tunnels > 0, counted(c.ipsec_tunnels, " IPsec tunnel(s)"));
    let servers = resolv_nameservers(c.resolv_conf.as_str());
    push_if(&mut errors, servers.len() == 0, "No DNS nameservers configured in /etc/resolv.conf".to_owned());
    push_if(&mut info, servers.len() > 0, counted(servers.len(), " DNS nameserver(s) configured"));
    let routes = fmt_i64(c.static_routes);
    push_if(&mut info, c.static_routes > 0, cat2(routes.as_str(), " static route(s)"));
    push_if(&mut info, c.pf_responds, "pf firewall is responding".to_owned());
    push_if(
        &mut warnings,
        !c.pf_responds,
        "pf firewall is not responding — rules may not be loaded".to_owned(),
    );
    push_if(
        &mut warnings,
        c.rules.len() == 0,
        "No firewall rules configured — all traffic may be blocked or allowed by default".to_owned(),
    );
    assert(Seq::<Seq<char>>::empty() + permissive_warnings(c.rules@) =~= permissive_warnings(c.rules@));
    validate_dhcp(&c.dhcp, &mut errors, &mut warnings, &mut info);
    assert(views(errors@) =~= check_errors(*c));
    assert(views(warnings@) =~= check_warnings(*c));
    assert(views(info@) =~= check_info(*c));
    let valid = errors.len() == 0;
    ConfigCheck { valid, errors, warnings, info }
}

// ---------------------------------------------------------------------------
// Laws
// ---------------------------------------------------------------------------

/// The rules are looked at one after the other.
pub proof fn rules_in_order(a: Seq<Rule>, b: Seq<Rule>)
    ensures
        permissive_warnings(Seq::<Rule>::empty()) == Seq::<Seq<char>>::empty(),
        permissive_warnings(a + b) == permissive_warnings(a) + permissive_warnings(b),
    decreases b.len(),
{
    if b.len() == 0 {
        assert(a + b =~= a);
        assert(permissive_warnings(a) + permissive_warnings(b) =~= permissive_warnings(a));
    } else {
        assert((a + b).drop_last() =~= a + b.drop_last());
        rules_in_order(a, b.drop_last());
        assert(permissive_warnings(a + b) =~= permissive_warnings(a) + permissive_warnings(b));
    }
}

/// A rule that lets everything pass is warned of by its label, or by the start of
/// its identifier; a rule that asks for anything is not.
pub proof fn rule_that_passes_everything_is_told(x: Rule)
    ensures
        x.action@ == "pass"@ && x.rule_match.src_addr == Address::Any && x.rule_match.dst_addr == Address::Any
            && x.rule_match.dst_port is None
            && x.label is Some ==> permissive_warnings(Seq::<Rule>::empty().push(x)) == Seq::<Seq<char>>::empty().push(
            "Rule '"@ + x.label->0@ + "' passes all traffic (any -> any, no port restriction)"@,
        ),
        x.action@ == "pass"@ && x.rule_match.src_addr == Address::Any && x.rule_match.dst_addr == Address::Any
            && x.rule_match.dst_port is None
            && x.label is None && x.id is Kept
                ==> permissive_warnings(Seq::<Rule>::empty().push(x)) == Seq::<Seq<char>>::empty().push(
            "Rule '"@ + x.id->Kept_0@.take(8) + "' passes all traffic (any -> any, no port restriction)"@,
        ),
        x.action@ != "pass"@ || x.rule_match.src_addr != Address::Any || x.rule_match.dst_addr != Address::Any
            || x.rule_match.dst_port is Some
            ==> permissive_warnings(Seq::<Rule>::empty().push(x)) == Seq::<Seq<char>>::empty(),
{
    reveal_with_fuel(permissive_warnings, 2);
    assert(Seq::<Rule>::empty().push(x).drop_last() =~= Seq::<Rule>::empty());
}

/// A translation is warned of exactly where one before it is on the same
/// interface, for the same protocol, with the same target.
pub proof fn repeated_translations_are_told(v: Seq<NatForward>, x: NatForward)
    ensures
        duplicate_warnings(Seq::<NatForward>::empty()) == Seq::<Seq<char>>::empty(),
        (exists|i: int| 0 <= i < v.len() && forward_key(#[trigger] v[i]) == forward_key(x))
            ==> duplicate_warnings(v.push(x))
            == duplicate_warnings(v).push("Possible duplicate NAT forward on "@ + x.interface@),
        !(exists|i: int| 0 <= i < v.len() && forward_key(#[trigger] v[i]) == forward_key(x))
            ==> duplicate_warnings(v.push(x))
            == duplicate_warnings(v),
{
    assert(v.push(x).drop_last() =~= v);
    let k = forward_keys(v);
    if exists|i: int| 0 <= i < v.len() && forward_key(#[trigger] v[i]) == forward_key(x) {
        let i = choose|i: int| 0 <= i < v.len() && forward_key(#[trigger] v[i]) == forward_key(x);
        assert(k[i] == forward_key(x));
    }
    if k.contains(forward_key(x)) {
        let i = choose|i: int| 0 <= i < k.len() && k[i] == forward_key(x);
        assert(forward_key(v[i]) == forward_key(x));
    }
}

/// What tells translations apart are their interface, their protocol and their
/// target.
pub proof fn translations_are_told_apart(n: NatForward)
    ensures
        forward_key(n) == n.interface@ + ":"@ + n.protocol@ + ":"@ + n.redirect@,
{
}

/// A machine without a name server is in error; so is whatever is wrong with the
/// DHCP section, and nothing else.
pub proof fn errors_of_a_check(c: CheckReadings)
    ensures
        nameservers(lines(c.resolv_conf@)).len() == 0 ==> check_errors(c) == Seq::<Seq<char>>::empty().push(
            "No DNS nameservers configured in /etc/resolv.conf"@,
        ) + dhcp_errors(c.dhcp),
        nameservers(lines(c.resolv_conf@)).len() > 0 ==> check_errors(c) == dhcp_errors(c.dhcp),
{
    assert(Seq::<Seq<char>>::empty() + dhcp_errors(c.dhcp) =~= dhcp_errors(c.dhcp));
}

/// What is warned of: rules that let everything pass, translations that are
/// there twice, a packet filter that does not answer, no rules at all, and what
/// the DHCP section is warned of.
pub proof fn warnings_of_a_check(c: CheckReadings, e: Seq<char>)
    ensures
        check_warnings(c).contains(e) <==> {
            ||| permissive_warnings(c.rules@).contains(e)
            ||| duplicate_warnings(c.nat@).contains(e)
            ||| !c.pf_responds && e == "pf firewall is not responding — rules may not be loaded"@
            ||| c.rules@.len() == 0
                && e == "No firewall rules configured — all traffic may be blocked or allowed by default"@
            ||| dhcp_warnings(c.dhcp).contains(e)
        },
{
    let a = permissive_warnings(c.rules@);
    let b = duplicate_warnings(c.nat@);
    let m = "pf firewall is not responding — rules may not be loaded"@;
    let n = "No firewall rules configured — all traffic may be blocked or allowed by default"@;
    append_holds(a, b, e);
    append_holds(a + b, line_if(!c.pf_responds, m), e);
    append_holds(a + b + line_if(!c.pf_responds, m), line_if(c.rules@.len() == 0, n), e);
    append_holds(a + b + line_if(!c.pf_responds, m) + line_if(c.rules@.len() == 0, n), dhcp_warnings(c.dhcp), e);
    push_holds(Seq::<Seq<char>>::empty(), m, e);
    push_holds(Seq::<Seq<char>>::empty(), n, e);
}

/// What there is is counted: rules and translations always, and the rest where
/// there is any.
pub proof fn counts_of_a_check(c: CheckReadings, e: Seq<char>)
    ensures
        check_info(c).contains(e) <==> {
            let servers = nameservers(lines(c.resolv_conf@)).len();
            ||| e == dec(c.rules@.len()) + " firewall rules configured"@
            ||| e == dec(c.nat@.len()) + " NAT rules configured"@
            ||| c.geoip_rules > 0 && e == dec(c.geoip_rules as nat) + " Geo-IP rules configured"@
            ||| c.wg_tunnels > 0 && e == dec(c.wg_tunnels as nat) + " WireGuard tunnel(s)"@
            ||| c.ipsec_sas > 0 && e == dec(c.ipsec_sas as nat) + " legacy IPsec SA record(s)"@
            ||| c.ipsec_tunnels > 0 && e == dec(c.ipsec_tunnels as nat) + " IPsec tunnel(s)"@
            ||| servers > 0 && e == dec(servers) + " DNS nameserver(s) configured"@
            ||| c.static_routes > 0 && e == dec_int(c.static_routes as int) + " static route(s)"@
            ||| c.pf_responds && e == "pf firewall is responding"@
            ||| dhcp_info(c.dhcp).contains(e)
        },
{
    let servers = nameservers(lines(c.resolv_conf@)).len();
    let z = Seq::<Seq<char>>::empty();
    let m1 = dec(c.rules@.len()) + " firewall rules configured"@;
    let m2 = dec(c.nat@.len()) + " NAT rules configured"@;
    let m3 = dec(c.geoip_rules as nat) + " Geo-IP rules configured"@;
    let m4 = dec(c.wg_tunnels as nat) + " WireGuard tunnel(s)"@;
    let m5 = dec(c.ipsec_sas as nat) + " legacy IPsec SA record(s)"@;
    let m6 = dec(c.ipsec_tunnels as nat) + " IPsec tunnel(s)"@;
    let m7 = dec(servers) + " DNS nameserver(s) configured"@;
    let m8 = dec_int(c.static_routes as int) + " static route(s)"@;
    let m9 = "pf firewall is responding"@;
    let a2 = z.push(m1).push(m2);
    let a3 = a2 + line_if(c.geoip_rules > 0, m3);
    let a4 = a3 + line_if(c.wg_tunnels > 0, m4);
    let a5 = a4 + line_if(c.ipsec_sas > 0, m5);
    let a6 = a5 + line_if(c.ipsec_tunnels > 0, m6);
    let a7 = a6 + line_if(servers > 0, m7);
    let a8 = a7 + line_if(c.static_routes > 0, m8);
    let a9 = a8 + line_if(c.pf_responds, m9);
    push_holds(z, m1, e);
    push_holds(z.push(m1), m2, e);
    append_holds(a2, line_if(c.geoip_rules > 0, m3), e);
    append_holds(a3, line_if(c.wg_tunnels > 0, m4), e);
    append_holds(a4, line_if(c.ipsec_sas > 0, m5), e);
    append_holds(a5, line_if(c.ipsec_tunnels > 0, m6), e);
    append_holds(a6, line_if(servers > 0, m7), e);
    append_holds(a7, line_if(c.static_routes > 0, m8), e);
    append_holds(a8, line_if(c.pf_responds, m9), e);
    append_holds(a9, dhcp_info(c.dhcp), e);
    push_holds(z, m3, e);
    push_holds(z, m4, e);
    push_holds(z, m5, e);
    push_holds(z, m6, e);
    push_holds(z, m7, e);
    push_holds(z, m8, e);
    push_holds(z, m9, e);
}

} // verus!
