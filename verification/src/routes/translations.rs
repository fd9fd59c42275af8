//! Rules that translate addresses.

use vstd::prelude::*;
use vstd::string::*;

use crate::backup::convert::NatRule;
use crate::backup::model::{port_range, range_of, Address};
use crate::identifiers::{answer_change, change_answer, require_uuid, said, uuid_text};
use crate::number::{dec, fmt_usize};
use crate::status::{engine_refusal, kind_status, refuse, EngineFailure, MessageResponse, Refusal, Status};
use crate::text::{append_lines, cat2, cat3, push_line, same, views};

verus! {

/// A translation that is to be made or changed.
#[derive(Clone, Debug)]
pub struct CreateNatRuleRequest {
    pub nat_type: String,
    pub interface: String,
    pub protocol: String,
    pub src_addr: Option<String>,
    pub src_port_start: Option<u16>,
    pub src_port_end: Option<u16>,
    pub dst_addr: Option<String>,
    pub dst_port_start: Option<u16>,
    pub dst_port_end: Option<u16>,
    pub redirect_addr: String,
    pub redirect_port_start: Option<u16>,
    pub redirect_port_end: Option<u16>,
    pub label: Option<String>,
    pub status: Option<String>,
}

/// What the firewall's parsers make of a request: each gives a value, or says
/// what is wrong.
#[derive(Debug)]
pub struct NatReadings {
    /// The kind of translation is known.
    pub nat_type_known: bool,
    /// The protocol is known.
    pub protocol_known: bool,
    /// The source, where the request gives one.
    pub src_addr: Option<Result<Address, String>>,
    /// The destination, where the request gives one.
    pub dst_addr: Option<Result<Address, String>>,
    pub redirect_addr: Result<Address, String>,
    /// What is wrong with the name of the interface.
    pub interface_error: Option<String>,
    /// What is wrong with the label, where the request gives one.
    pub label_error: Option<String>,
}

/// A bad request, and why.
pub fn nat_bad_request(message: String) -> (r: Refusal)
    ensures
        r.status == Status::BadRequest,
        r.message == message,
{
    refuse(Status::BadRequest, message)
}

/// The answer to a request on which the engine failed.
pub fn nat_engine_error(e: EngineFailure) -> (r: Refusal)
    ensures
        r.status == kind_status(e.kind),
        r.message == e.text,
{
    engine_refusal(e)
}

/// What is wrong with an optional address.
pub open spec fn address_error(what: Seq<char>, a: Option<Result<Address, String>>) -> Option<Seq<char>> {
    match a {
        Some(Err(e)) => Some(what + e@),
        _ => None,
    }
}

/// What is wrong with the redirection.
pub open spec fn redirect_error(a: Result<Address, String>) -> Option<Seq<char>> {
    match a {
        Err(e) => Some("invalid redirect address: "@ + e@),
        Ok(_) => None,
    }
}

/// What is wrong with the kind of translation.
pub open spec fn type_error(q: CreateNatRuleRequest, v: NatReadings) -> Option<Seq<char>> {
    if v.nat_type_known {
        None
    } else {
        Some("unknown NAT type '"@ + q.nat_type@ + "'"@)
    }
}

/// What is wrong with the protocol.
pub open spec fn protocol_error(q: CreateNatRuleRequest, v: NatReadings) -> Option<Seq<char>> {
    if v.protocol_known {
        None
    } else {
        Some("unknown protocol '"@ + q.protocol@ + "'"@)
    }
}

/// What is wrong with the addresses.
pub open spec fn addresses_error(v: NatReadings) -> Option<Seq<char>> {
    first_error(
        address_error("invalid source address: "@, v.src_addr),
        first_error(address_error("invalid destination address: "@, v.dst_addr), redirect_error(v.redirect_addr)),
    )
}

/// What is wrong with the names.
pub open spec fn names_error(v: NatReadings) -> Option<Seq<char>> {
    first_error(crate::kv::option_view(v.interface_error), crate::kv::option_view(v.label_error))
}

/// The first of two errors.
pub open spec fn first_error(a: Option<Seq<char>>, b: Option<Seq<char>>) -> Option<Seq<char>> {
    match a {
        Some(e) => Some(e),
        None => b,
    }
}

/// What is wrong with a translation that is to be made.
pub open spec fn create_error(q: CreateNatRuleRequest, v: NatReadings) -> Option<Seq<char>> {
    first_error(type_error(q, v), first_error(protocol_error(q, v), first_error(addresses_error(v), names_error(v))))
}

/// The status that a request asks for is known.
pub open spec fn status_error(q: CreateNatRuleRequest) -> Option<Seq<char>> {
    match q.status {
        Some(s) => if s@ == "active"@ || s@ == "disabled"@ {
            None
        } else {
            Some("unknown status '"@ + s@ + "'"@)
        },
        None => None,
    }
}

/// What is wrong with a translation that is to be changed.
pub open spec fn update_error(q: CreateNatRuleRequest, v: NatReadings) -> Option<Seq<char>> {
    first_error(
        type_error(q, v),
        first_error(
            names_error(v),
            first_error(protocol_error(q, v), first_error(addresses_error(v), status_error(q))),
        ),
    )
}

/// The address, any where there is none.
pub open spec fn address_or_any(a: Option<Result<Address, String>>) -> Address {
    match a {
        Some(Ok(x)) => x,
        _ => Address::Any,
    }
}

/// `r` is the translation of a valid request: `base` gives its identifier,
/// and its status where the request asks for none.
pub open spec fn is_requested(r: NatRule, base: NatRule, q: CreateNatRuleRequest, v: NatReadings, status: String) -> bool {
    r == (NatRule {
        id: base.id,
        nat_type: q.nat_type,
        interface: q.interface,
        protocol: q.protocol,
        src_addr: address_or_any(v.src_addr),
        src_port: range_of(q.src_port_start, q.src_port_end),
        dst_addr: address_or_any(v.dst_addr),
        dst_port: range_of(q.dst_port_start, q.dst_port_end),
        redirect_addr: address_or_any(Some(v.redirect_addr)),
        redirect_port: range_of(q.redirect_port_start, q.redirect_port_end),
        label: q.label,
        status,
    })
}

fn option_address(what: &str, a: Option<Result<Address, String>>) -> (r: Result<Address, String>)
    ensures
        match r {
            Ok(x) => address_error(what@, a) is None && x == address_or_any(a),
            Err(e) => address_error(what@, a) == Some(e@),
        },
{
    match a {
        Some(Ok(x)) => Ok(x),
        Some(Err(e)) => Err(cat2(what, e.as_str())),
        None => Ok(Address::Any),
    }
}

fn three_addresses(v: NatReadings) -> (r: Result<(Address, Address, Address), String>)
    ensures
        match r {
            Ok((a, b, c)) => {
                &&& addresses_error(v) is None
                &&& a == address_or_any(v.src_addr)
                &&& b == address_or_any(v.dst_addr)
                &&& c == address_or_any(Some(v.redirect_addr))
            },
            Err(e) => addresses_error(v) == Some(e@),
        },
{
    let a = match option_address("invalid source address: ", v.src_addr) {
        Ok(x) => x,
        Err(e) => {
            return Err(e);
        },
    };
    let b = match option_address("invalid destination address: ", v.dst_addr) {
        Ok(x) => x,
        Err(e) => {
            return Err(e);
        },
    };
    match v.redirect_addr {
        Ok(c) => Ok((a, b, c)),
        Err(e) => Err(cat2("invalid redirect address: ", e.as_str())),
    }
}

fn check_type(q: &CreateNatRuleRequest, v: &NatReadings) -> (r: Option<String>)
    ensures
        crate::kv::option_view(r) == type_error(*q, *v),
{
    if v.nat_type_known {
        None
    } else {
        Some(cat3("unknown NAT type '", q.nat_type.as_str(), "'"))
    }
}

fn check_protocol(q: &CreateNatRuleRequest, v: &NatReadings) -> (r: Option<String>)
    ensures
        crate::kv::option_view(r) == protocol_error(*q, *v),
{
    if v.protocol_known {
        None
    } else {
        Some(cat3("unknown protocol '", q.protocol.as_str(), "'"))
    }
}

fn check_names(v: &NatReadings) -> (r: Option<String>)
    ensures
        crate::kv::option_view(r) == names_error(*v),
{
    match &v.interface_error {
        Some(e) => Some(e.clone()),
        None => v.label_error.clone(),
    }
}

fn check_status(q: &CreateNatRuleRequest) -> (r: Option<String>)
    ensures
        crate::kv::option_view(r) == status_error(*q),
{
    match &q.status {
        Some(s) => if same(s.as_str(), "active") || same(s.as_str(), "disabled") {
            None
        } else {
            Some(cat3("unknown status '", s.as_str(), "'"))
        },
        None => None,
    }
}

fn requested(
    base: NatRule,
    q: CreateNatRuleRequest,
    addresses: (Address, Address, Address),
    Ghost(v): Ghost<NatReadings>,
    status: String,
) -> (r: NatRule)
    requires
        addresses.0 == address_or_any(v.src_addr),
        addresses.1 == address_or_any(v.dst_addr),
        addresses.2 == address_or_any(Some(v.redirect_addr)),
    ensures
        is_requested(r, base, q, v, status),
{
    NatRule {
        id: base.id,
        nat_type: q.nat_type,
        interface: q.interface,
        protocol: q.protocol,
        src_addr: addresses.0,
        src_port: port_range(q.src_port_start, q.src_port_end),
        dst_addr: addresses.1,
        dst_port: port_range(q.dst_port_start, q.dst_port_end),
        redirect_addr: addresses.2,
        redirect_port: port_range(q.redirect_port_start, q.redirect_port_end),
        label: q.label,
        status,
    }
}

/// A new translation: `base` is a blank one, with an identifier and a status.
/// The first thing that is wrong is answered.
pub fn create_nat_rule(base: NatRule, q: CreateNatRuleRequest, v: NatReadings) -> (r: Result<NatRule, Refusal>)
    ensures
        match r {
            Ok(n) => create_error(q, v) is None && is_requested(n, base, q, v, base.status),
            Err(e) => e.status == Status::BadRequest && create_error(q, v) == Some(e.message@),
        },
{
    match check_type(&q, &v) {
        Some(e) => {
            return Err(nat_bad_request(e));
        },
        None => {},
    }
    match check_protocol(&q, &v) {
        Some(e) => {
            return Err(nat_bad_request(e));
        },
        None => {},
    }
    let names = check_names(&v);
    let ghost readings = v;
    let addresses = match three_addresses(v) {
        Ok(a) => a,
        Err(e) => {
            return Err(nat_bad_request(e));
        },
    };
    match names {
        Some(e) => {
            return Err(nat_bad_request(e));
        },
        None => {},
    }
    let status = base.status.clone();
    Ok(requested(base, q, addresses, Ghost(readings), status))
}

/// A translation with what is to be changed: `current` is what the engine
/// found under the identifier.
pub fn update_nat_rule(
    id: &str,
    current: Result<NatRule, EngineFailure>,
    q: CreateNatRuleRequest,
    v: NatReadings,
) -> (r: Result<NatRule, Refusal>)
    ensures
        match uuid_text(id@) {
            None => r matches Err(e) && e.status == Status::BadRequest && e.message@ == "invalid rule id"@,
            Some(_) => match current {
                Err(f) => r matches Err(e) && e.status == kind_status(f.kind) && e.message == f.text,
                Ok(base) => match r {
                    Ok(n) => update_error(q, v) is None && is_requested(
                        n,
                        base,
                        q,
                        v,
                        match q.status {
                            Some(s) => s,
                            None => base.status,
                        },
                    ),
                    Err(e) => e.status == Status::BadRequest && update_error(q, v) == Some(e.message@),
                },
            },
        },
{
    match require_uuid(id) {
        Ok(_) => {},
        Err(_) => {
            return Err(nat_bad_request("invalid rule id".to_owned()));
        },
    }
    let base = match current {
        Ok(n) => n,
        Err(f) => {
            return Err(nat_engine_error(f));
        },
    };
    match check_type(&q, &v) {
        Some(e) => {
            return Err(nat_bad_request(e));
        },
        None => {},
    }
    match check_names(&v) {
        Some(e) => {
            return Err(nat_bad_request(e));
        },
        None => {},
    }
    match check_protocol(&q, &v) {
        Some(e) => {
            return Err(nat_bad_request(e));
        },
        None => {},
    }
    let ghost readings = v;
    let addresses = match three_addresses(v) {
        Ok(a) => a,
        Err(e) => {
            return Err(nat_bad_request(e));
        },
    };
    match check_status(&q) {
        Some(e) => {
            return Err(nat_bad_request(e));
        },
        None => {},
    }
    let status = match &q.status {
        Some(s) => s.clone(),
        None => base.status.clone(),
    };
    Ok(requested(base, q, addresses, Ghost(readings), status))
}

/// What the packet filter has loaded of translations.
pub open spec fn pf_output(translations: Seq<Seq<char>>, passes: Seq<Seq<char>>) -> Seq<Seq<char>> {
    let none = Seq::<Seq<char>>::empty();
    let first = if translations.len() == 0 {
        none
    } else {
        none.push("# NAT rules (anchor: aifw-nat)"@) + translations
    };
    if passes.len() == 0 {
        first
    } else {
        (if first.len() == 0 {
            first
        } else {
            first.push(""@)
        }).push("# Translation pass rules — af-to (anchor: aifw-nat)"@) + passes
    }
}

/// What the packet filter has loaded of translations, each part with a title
/// and a blank line between them.
pub fn get_nat_pf_output(nat_rules: Vec<String>, filter_rules: Vec<String>) -> (r: Vec<String>)
    ensures
        views(r@) == pf_output(views(nat_rules@), views(filter_rules@)),
{
    let mut out: Vec<String> = Vec::new();
    let ghost t = views(nat_rules@);
    let ghost p = views(filter_rules@);
    assert(t.len() == nat_rules@.len() && p.len() == filter_rules@.len());
    assert(views(out@) =~= Seq::<Seq<char>>::empty());
    if nat_rules.len() > 0 {
        push_line(&mut out, "# NAT rules (anchor: aifw-nat)".to_owned());
        append_lines(&mut out, nat_rules);
    }
    assert(views(out@).len() == out@.len());
    if filter_rules.len() > 0 {
        if out.len() > 0 {
            push_line(&mut out, "".to_owned());
        }
        push_line(&mut out, "# Translation pass rules — af-to (anchor: aifw-nat)".to_owned());
        append_lines(&mut out, filter_rules);
    }
    assert(views(out@) =~= pf_output(t, p));
    out
}

/// How many of the first texts are identifiers.
pub open spec fn valid_prefix(ids: Seq<Seq<char>>) -> nat
    decreases ids.len(),
{
    if ids.len() == 0 || uuid_text(ids[0]) is None {
        0
    } else {
        1 + valid_prefix(ids.skip(1))
    }
}

/// A new order of the rules: which rule gets which place, and the answer.
#[derive(Debug)]
pub struct Reorder {
    /// The rules from the first place on.
    pub places: Vec<String>,
    pub answer: Result<String, Status>,
}

/// Puts rules in order. What is no identifier is a bad request; the rules
/// before it have got their places by then.
pub fn reorder_nat_rules(ids: &Vec<String>) -> (r: Reorder)
    ensures
        r.places@.len() == valid_prefix(views(ids@)),
        forall|i: int| 0 <= i < r.places@.len() ==> uuid_text(ids@[i]@) == Some((#[trigger] r.places@[i])@),
        match r.answer {
            Ok(m) => valid_prefix(views(ids@)) == ids@.len() && m@ == dec(ids@.len()) + " NAT rules reordered"@,
            Err(e) => valid_prefix(views(ids@)) < ids@.len() && e == Status::BadRequest,
        },
{
    let mut places: Vec<String> = Vec::new();
    let ghost all = views(ids@);
    let mut i: usize = 0;
    assert(all.skip(0) =~= all);
    while i < ids.len()
        invariant
            i <= ids@.len(),
            all == views(ids@),
            places@.len() == i,
            valid_prefix(all) == i + valid_prefix(all.skip(i as int)),
            forall|k: int| 0 <= k < i ==> uuid_text(ids@[k]@) == Some((#[trigger] places@[k])@),
        decreases ids.len() - i,
    {
        assert(all.skip(i as int).skip(1) =~= all.skip(i + 1));
        assert(all.skip(i as int)[0] == ids@[i as int]@);
        match require_uuid(ids[i].as_str()) {
            Ok(t) => places.push(t),
            Err(e) => {
                return Reorder { places, answer: Err(e) };
            },
        }
        i = i + 1;
    }
    let n = fmt_usize(ids.len());
    Reorder { places, answer: Ok(cat2(n.as_str(), " NAT rules reordered")) }
}

/// What is answered once a translation was to be deleted.
pub fn delete_nat_rule(id: &str, deleted: bool) -> (r: Result<MessageResponse, Status>)
    ensures
        said(r) == change_answer(id@, deleted, Status::NotFound, "NAT rule "@ + id@ + " deleted"@),
{
    answer_change(id, deleted, Status::NotFound, cat3("NAT rule ", id, " deleted"))
}

// ---------------------------------------------------------------------------
// Laws
// ---------------------------------------------------------------------------

/// A rule holds what was asked for, each value in its own place: the addresses that were read,
/// anything where none was given, and a range of ports for each pair of ends.
pub proof fn rule_goes_by_its_request(r: NatRule, base: NatRule, q: CreateNatRuleRequest, v: NatReadings,
    status: String)
    requires
        is_requested(r, base, q, v, status),
    ensures
        r.id == base.id,
        r.nat_type == q.nat_type,
        r.interface == q.interface,
        r.protocol == q.protocol,
        r.label == q.label,
        r.status == status,
        v.src_addr matches Some(Ok(a)) ==> r.src_addr == a,
        v.dst_addr matches Some(Ok(a)) ==> r.dst_addr == a,
        v.redirect_addr matches Ok(a) ==> r.redirect_addr == a,
        v.src_addr is None ==> r.src_addr == Address::Any,
        v.dst_addr is None ==> r.dst_addr == Address::Any,
        q.src_port_start is None ==> r.src_port is None,
        q.src_port_start matches Some(n) ==> r.src_port is Some && r.src_port->0.start == n,
        q.src_port_start is Some ==> (q.src_port_end matches Some(n) ==> r.src_port->0.end == n),
        q.src_port_start is Some && q.src_port_end is None ==> r.src_port->0.end == r.src_port->0.start,
        q.dst_port_start is None ==> r.dst_port is None,
        q.dst_port_start matches Some(n) ==> r.dst_port is Some && r.dst_port->0.start == n,
        q.dst_port_start is Some ==> (q.dst_port_end matches Some(n) ==> r.dst_port->0.end == n),
        q.dst_port_start is Some && q.dst_port_end is None ==> r.dst_port->0.end == r.dst_port->0.start,
        q.redirect_port_start is None ==> r.redirect_port is None,
        q.redirect_port_start matches Some(n) ==> r.redirect_port is Some && r.redirect_port->0.start == n,
        q.redirect_port_start is Some ==> (q.redirect_port_end matches Some(n) ==> r.redirect_port->0.end == n),
        q.redirect_port_start is Some && q.redirect_port_end is None
            ==> r.redirect_port->0.end == r.redirect_port->0.start,
{
}

/// A request is taken where its kind and protocol are known, its addresses can be read and
/// its names are in order; a change also where its status is a known one.
pub proof fn only_good_requests_are_taken(q: CreateNatRuleRequest, v: NatReadings)
    ensures
        create_error(q, v) is None <==> v.nat_type_known && v.protocol_known && !(v.src_addr matches Some(Err(_)))
            && !(v.dst_addr matches Some(Err(_))) && v.redirect_addr is Ok && v.interface_error is None
            && v.label_error is None,
        update_error(q, v) is None <==> v.nat_type_known && v.protocol_known && !(v.src_addr matches Some(Err(_)))
            && !(v.dst_addr matches Some(Err(_))) && v.redirect_addr is Ok && v.interface_error is None
            && v.label_error is None && (q.status matches Some(s) ==> s@ == "active"@ || s@ == "disabled"@),
{
}

/// A refused request is told the first thing that is wrong with it: the kind comes first, then
/// the protocol, the source, the destination, the redirect, the interface and the label. A
/// change looks at the names before the protocol, and at the status last.
pub proof fn first_fault_is_named(q: CreateNatRuleRequest, v: NatReadings, e: String)
    ensures
        !v.nat_type_known ==> create_error(q, v) == Some("unknown NAT type '"@ + q.nat_type@ + "'"@),
        !v.nat_type_known ==> update_error(q, v) == Some("unknown NAT type '"@ + q.nat_type@ + "'"@),
        v.nat_type_known && !v.protocol_known
            ==> create_error(q, v) == Some("unknown protocol '"@ + q.protocol@ + "'"@),
        v.nat_type_known && v.protocol_known && v.src_addr == Some(Err::<Address, String>(e))
            ==> create_error(q, v) == Some("invalid source address: "@ + e@),
        v.nat_type_known && v.protocol_known && !(v.src_addr matches Some(Err(_)))
            && v.dst_addr == Some(Err::<Address, String>(e))
            ==> create_error(q, v) == Some("invalid destination address: "@ + e@),
        v.nat_type_known && v.protocol_known && !(v.src_addr matches Some(Err(_)))
            && !(v.dst_addr matches Some(Err(_))) && v.redirect_addr == Err::<Address, String>(e)
            ==> create_error(q, v) == Some("invalid redirect address: "@ + e@),
        v.nat_type_known && v.protocol_known && addresses_error(v) is None && v.interface_error == Some(e)
            ==> create_error(q, v) == Some(e@),
        v.nat_type_known && v.protocol_known && addresses_error(v) is None && v.interface_error is None
            && v.label_error == Some(e) ==> create_error(q, v) == Some(e@),
        v.nat_type_known && v.interface_error == Some(e) ==> update_error(q, v) == Some(e@),
        v.nat_type_known && v.interface_error is None && v.label_error == Some(e) ==> update_error(q, v) == Some(e@),
        v.nat_type_known && v.interface_error is None && v.label_error is None && !v.protocol_known
            ==> update_error(q, v) == Some("unknown protocol '"@ + q.protocol@ + "'"@),
        create_error(q, v) is None && q.status == Some(e) && e@ != "active"@ && e@ != "disabled"@
            ==> update_error(q, v) == Some("unknown status '"@ + e@ + "'"@),
{
}

/// The output holds the translations in order under their heading, then the pass rules under
/// theirs, with an empty line between; a list that is empty has no heading.
pub proof fn rules_are_shown_under_headings(translations: Seq<Seq<char>>, passes: Seq<Seq<char>>)
    ensures
        pf_output(Seq::<Seq<char>>::empty(), Seq::<Seq<char>>::empty()).len() == 0,
        translations.len() > 0 ==> pf_output(translations,
            Seq::<Seq<char>>::empty()) == seq!["# NAT rules (anchor: aifw-nat)"@] + translations,
        passes.len() > 0 ==> pf_output(Seq::<Seq<char>>::empty(),
            passes) == seq!["# Translation pass rules — af-to (anchor: aifw-nat)"@] + passes,
        translations.len() > 0 && passes.len() > 0
            ==> pf_output(translations, passes) == pf_output(translations,
            Seq::<Seq<char>>::empty()) + seq![Seq::<char>::empty()] + pf_output(Seq::<Seq<char>>::empty(), passes),
{
    reveal_strlit("");
    assert(""@ =~= Seq::<char>::empty());
}

/// The rules that get a place are all those before the first that is no identifier.
pub proof fn places_end_at_the_first_stranger(ids: Seq<Seq<char>>, i: int)
    ensures
        valid_prefix(ids) <= ids.len(),
        0 <= i < valid_prefix(ids) ==> uuid_text(ids[i]) is Some,
        valid_prefix(ids) < ids.len() ==> uuid_text(ids[valid_prefix(ids) as int]) is None,
    decreases ids.len(),
{
    if ids.len() > 0 && uuid_text(ids[0]) is Some {
        places_end_at_the_first_stranger(ids.skip(1), i - 1);
        assert(i > 0 && i < ids.len() ==> ids.skip(1)[i - 1] == ids[i]);
        if valid_prefix(ids) < ids.len() {
            assert(ids.skip(1)[valid_prefix(ids.skip(1)) as int] == ids[valid_prefix(ids) as int]);
        }
    }
}

/// A new rule has the status of the one it is made from, a changed one that of the request or
/// else its own; either holds what was asked for.
pub proof fn translations_are_made_and_changed(id: &str, base: NatRule, q: CreateNatRuleRequest, v: NatReadings,
    r: Result<NatRule, Refusal>)
    ensures
        call_ensures(create_nat_rule, (base, q, v), r) ==> (r matches Ok(n) ==> n.id == base.id
            && n.status == base.status && n.interface == q.interface && n.nat_type == q.nat_type
            && n.protocol == q.protocol && n.label == q.label),
        call_ensures(create_nat_rule, (base, q, v), r) ==> (r is Ok <==> create_error(q, v) is None),
        call_ensures(create_nat_rule, (base, q, v), r) ==> (r matches Err(e) ==> e.status == Status::BadRequest
            && create_error(q, v) == Some(e.message@)),
        call_ensures(update_nat_rule, (id, Ok::<NatRule, EngineFailure>(base), q, v), r) ==> (r matches Ok(n)
            ==> n.id == base.id && (q.status matches Some(s) ==> n.status == s) && (q.status is None
            ==> n.status == base.status) && n.interface == q.interface && n.nat_type == q.nat_type
            && n.protocol == q.protocol && n.label == q.label),
        call_ensures(update_nat_rule, (id, Ok::<NatRule, EngineFailure>(base), q, v), r) ==> (r is Ok
            <==> uuid_text(id@) is Some && update_error(q, v) is None),
        call_ensures(update_nat_rule, (id, Ok::<NatRule, EngineFailure>(base), q, v), r) && uuid_text(id@) is None
            ==> r->Err_0.status == Status::BadRequest && r->Err_0.message@ == "invalid rule id"@,
{
}

} // verus!
