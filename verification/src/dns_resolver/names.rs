//! What operators may enter as names, record values and networks.

use vstd::prelude::*;
use vstd::string::*;
use vstd::utf8::encode_utf8;

use crate::net::{cut_at_slash, first_slash, ip_ok, ipv4, ipv6_ok, is_ip, is_ipv6, lemma_first_slash, parse_ipv4};
use crate::number::{parse_u8, parsed};
use crate::status::Status;
use crate::text::{chars_of, same};

verus! {

/// A letter, a digit, a hyphen or a dot.
pub open spec fn is_name_char(c: char) -> bool {
    'a' <= c <= 'z' || 'A' <= c <= 'Z' || '0' <= c <= '9' || c == '-' || c == '.'
}

/// Decides [`is_name_char`].
pub fn name_char(c: char) -> (r: bool)
    ensures
        r == is_name_char(c),
{
    ('a' <= c && c <= 'z') || ('A' <= c && c <= 'Z') || ('0' <= c && c <= '9') || c == '-' || c == '.'
}

/// A domain name: 1 to 253 letters, digits, hyphens and dots, no two dots in
/// a row, neither a hyphen nor a dot in front.
pub open spec fn is_domain(s: Seq<char>) -> bool {
    &&& 0 < s.len() <= 253
    &&& forall|i: int| 0 <= i < s.len() ==> is_name_char(#[trigger] s[i])
    &&& forall|i: int| 0 <= i < s.len() - 1 ==> !(#[trigger] s[i] == '.' && s[i + 1] == '.')
    &&& s[0] != '-'
    &&& s[0] != '.'
}

/// Whether `domain` is a domain name.
pub fn validate_domain(domain: &str) -> (r: bool)
    ensures
        r == is_domain(domain@),
{
    let v = chars_of(domain);
    if v.len() == 0 || v.len() > 253 || v[0] == '-' || v[0] == '.' {
        return false;
    }
    let mut i: usize = 0;
    while i < v.len()
        invariant
            i <= v@.len() <= 253,
            v@ == domain@,
            forall|k: int| 0 <= k < i ==> is_name_char(#[trigger] v@[k]),
            forall|k: int| 0 <= k < i - 1 ==> !(#[trigger] v@[k] == '.' && v@[k + 1] == '.'),
        decreases v.len() - i,
    {
        if !name_char(v[i]) {
            return false;
        }
        if i > 0 && v[i - 1] == '.' && v[i] == '.' {
            assert(v@[i - 1] == '.');
            return false;
        }
        i = i + 1;
    }
    true
}

/// The characters of `s` that may stand in a zone file's name.
pub open spec fn name_chars_only(s: Seq<char>) -> Seq<char>
    decreases s.len(),
{
    if s.len() == 0 {
        Seq::<char>::empty()
    } else if is_name_char(s.last()) {
        name_chars_only(s.drop_last()).push(s.last())
    } else {
        name_chars_only(s.drop_last())
    }
}

/// A file name made of a domain: everything but letters, digits, hyphens and
/// dots is left out.
pub fn sanitize_zone_filename(name: &str) -> (r: String)
    ensures
        r@ == name_chars_only(name@),
{
    let v = chars_of(name);
    let mut r = String::new();
    let mut i: usize = 0;
    assert(r@ =~= name_chars_only(v@.take(0)));
    while i < v.len()
        invariant
            i <= v@.len(),
            v@ == name@,
            r@ == name_chars_only(v@.take(i as int)),
        decreases v.len() - i,
    {
        assert(v@.take(i + 1).drop_last() =~= v@.take(i as int));
        if name_char(v[i]) {
            r.push(v[i]);
        }
        i = i + 1;
    }
    assert(v@.take(v@.len() as int) =~= v@);
    r
}

/// A file name made of a domain holds no path separator, and a name that is
/// clean already is kept: cleaning twice is cleaning once.
pub proof fn sanitized_names_are_clean(s: Seq<char>)
    ensures
        forall|i: int| 0 <= i < name_chars_only(s).len() ==> is_name_char(#[trigger] name_chars_only(s)[i]),
        !name_chars_only(s).contains('/'),
        name_chars_only(name_chars_only(s)) == name_chars_only(s),
    decreases s.len(),
{
    lemma_sanitized(s);
    lemma_clean_is_kept(name_chars_only(s));
    if name_chars_only(s).contains('/') {
        let i = choose|i: int| 0 <= i < name_chars_only(s).len() && name_chars_only(s)[i] == '/';
        assert(is_name_char(name_chars_only(s)[i]));
    }
}

/// A domain name is the name of its own file.
pub proof fn domain_names_are_kept(s: Seq<char>)
    requires
        is_domain(s),
    ensures
        name_chars_only(s) == s,
{
    lemma_clean_is_kept(s);
}

proof fn lemma_sanitized(s: Seq<char>)
    ensures
        forall|i: int| 0 <= i < name_chars_only(s).len() ==> is_name_char(#[trigger] name_chars_only(s)[i]),
    decreases s.len(),
{
    if s.len() > 0 {
        lemma_sanitized(s.drop_last());
        let init = name_chars_only(s.drop_last());
        assert forall|i: int| 0 <= i < name_chars_only(s).len() implies is_name_char(
            #[trigger] name_chars_only(s)[i],
        ) by {
            if i < init.len() {
                assert(name_chars_only(s)[i] == init[i]);
            }
        }
    }
}

proof fn lemma_clean_is_kept(s: Seq<char>)
    requires
        forall|i: int| 0 <= i < s.len() ==> is_name_char(#[trigger] s[i]),
    ensures
        name_chars_only(s) == s,
    decreases s.len(),
{
    if s.len() > 0 {
        let t = s.drop_last();
        assert forall|i: int| 0 <= i < t.len() implies is_name_char(#[trigger] t[i]) by {
            assert(t[i] == s[i]);
        }
        lemma_clean_is_kept(t);
        assert(is_name_char(s[s.len() - 1]));
        assert(t.push(s.last()) =~= s);
    } else {
        assert(name_chars_only(s) =~= s);
    }
}

/// How many bytes `s` takes in UTF-8.
pub open spec fn byte_len(s: Seq<char>) -> usize {
    encode_utf8(s).len() as usize
}

/// A value that a record of type `t` can have.
pub open spec fn is_record_value(t: Seq<char>, v: Seq<char>) -> bool {
    if t == "A"@ {
        ipv4(v) is Some
    } else if t == "AAAA"@ {
        is_ipv6(v)
    } else if t == "CNAME"@ || t == "NS"@ || t == "PTR"@ || t == "MX"@ {
        is_domain(v)
    } else if t == "TXT"@ {
        byte_len(v) <= 4096
    } else {
        false
    }
}

proof fn lemma_record_types_differ()
    ensures
        "A"@ != "AAAA"@,
        "TXT"@ != "A"@,
        "TXT"@ != "AAAA"@,
        "TXT"@ != "CNAME"@,
        "TXT"@ != "NS"@,
        "TXT"@ != "PTR"@,
        "TXT"@ != "MX"@,
        "A"@ != "CNAME"@,
        "A"@ != "NS"@,
        "A"@ != "PTR"@,
        "A"@ != "MX"@,
        "AAAA"@ != "CNAME"@,
        "AAAA"@ != "NS"@,
        "AAAA"@ != "PTR"@,
        "AAAA"@ != "MX"@,
{
    reveal_strlit("A");
    reveal_strlit("AAAA");
    reveal_strlit("CNAME");
    reveal_strlit("NS");
    reveal_strlit("PTR");
    reveal_strlit("MX");
    reveal_strlit("TXT");
    assert("A"@.len() == 1);
    assert("AAAA"@.len() == 4);
    assert("CNAME"@.len() == 5);
    assert("NS"@.len() == 2);
    assert("PTR"@.len() == 3);
    assert("MX"@.len() == 2);
    assert("TXT"@.len() == 3);
    assert("TXT"@[0] == 'T');
    assert("PTR"@[0] == 'P');
}

/// Checks the value of a record against its type.
pub fn validate_dns_value(record_type: &str, value: &str) -> (r: Result<(), Status>)
    ensures
        r is Ok <==> is_record_value(record_type@, value@),
        r matches Err(s) ==> s == Status::BadRequest,
{
    proof {
        lemma_record_types_differ();
    }
    let ok = if same(record_type, "A") {
        match parse_ipv4(value) {
            Some(_) => true,
            None => false,
        }
    } else if same(record_type, "AAAA") {
        ipv6_ok(value)
    } else if same(record_type, "CNAME") || same(record_type, "NS") || same(record_type, "PTR") || same(
        record_type,
        "MX",
    ) {
        validate_domain(value)
    } else if same(record_type, "TXT") {
        value.len() <= 4096
    } else {
        false
    };
    if ok {
        Ok(())
    } else {
        Err(Status::BadRequest)
    }
}

/// What an access rule may do with a network.
pub open spec fn is_acl_action(s: Seq<char>) -> bool {
    s == "allow"@ || s == "deny"@ || s == "refuse"@ || s == "allow_snoop"@
}

/// Whether `action` is one of the actions of an access rule.
pub fn validate_acl_action(action: &str) -> (r: bool)
    ensures
        r == is_acl_action(action@),
{
    same(action, "allow") || same(action, "deny") || same(action, "refuse") || same(action, "allow_snoop")
}

/// An address, or an address and a prefix length that fits a byte.
pub open spec fn is_network(s: Seq<char>) -> bool {
    if s.contains('/') {
        is_ip(s.take(first_slash(s))) && parsed(s.skip(first_slash(s) + 1), 255) is Some
    } else {
        is_ip(s)
    }
}

/// Whether `s` is a network that an access rule can name.
pub fn validate_cidr_network(s: &str) -> (r: bool)
    ensures
        r == is_network(s@),
{
    match cut_at_slash(s) {
        Some((ip, prefix)) => ip_ok(ip.as_str()) && parse_u8(prefix.as_str()).is_some(),
        None => ip_ok(s),
    }
}

// ---------------------------------------------------------------------------
// Laws
// ---------------------------------------------------------------------------

/// A domain has at most 253 letters, digits, hyphens and full stops, no two full stops in a
/// row, and starts with neither a hyphen nor a full stop.
pub proof fn domains_are_clean(s: Seq<char>, i: int)
    ensures
        s.len() == 0 || s.len() > 253 ==> !is_domain(s),
        0 <= i < s.len() && !('a' <= s[i] <= 'z' || 'A' <= s[i] <= 'Z' || '0' <= s[i] <= '9' || s[i] == '-'
            || s[i] == '.') ==> !is_domain(s),
        0 <= i < s.len() - 1 && s[i] == '.' && s[i + 1] == '.' ==> !is_domain(s),
        s.len() > 0 && (s[0] == '-' || s[0] == '.') ==> !is_domain(s),
        0 < s.len() <= 253 && (forall|k: int| 0 <= k < s.len() ==> 'a' <= (#[trigger] s[k]) <= 'z'
            || 'A' <= s[k] <= 'Z' || '0' <= s[k] <= '9' || s[k] == '-') && s[0] != '-' ==> is_domain(s),
{
    if 0 <= i < s.len() {
        assert(is_domain(s) ==> is_name_char(s[i]));
    }
}

/// The characters that a file name takes stay in order.
pub proof fn names_are_cleaned_in_order(a: Seq<char>, b: Seq<char>)
    ensures
        name_chars_only(Seq::<char>::empty()) == Seq::<char>::empty(),
        name_chars_only(a + b) == name_chars_only(a) + name_chars_only(b),
    decreases b.len(),
{
    if b.len() == 0 {
        assert(a + b =~= a);
        assert(name_chars_only(a) + name_chars_only(b) =~= name_chars_only(a));
    } else {
        assert((a + b).drop_last() =~= a + b.drop_last());
        names_are_cleaned_in_order(a, b.drop_last());
        assert(name_chars_only(a + b) =~= name_chars_only(a) + name_chars_only(b));
    }
}

/// A letter, a digit, a hyphen and a full stop stay, and nothing else does.
pub proof fn name_characters_stay(c: char)
    ensures
        'a' <= c <= 'z' || 'A' <= c <= 'Z' || '0' <= c <= '9' || c == '-' || c == '.'
            ==> name_chars_only(Seq::<char>::empty().push(c)) == seq![c],
        !('a' <= c <= 'z' || 'A' <= c <= 'Z' || '0' <= c <= '9' || c == '-' || c == '.')
            ==> name_chars_only(Seq::<char>::empty().push(c)).len() == 0,
{
    reveal_with_fuel(name_chars_only, 2);
    assert(Seq::<char>::empty().push(c).drop_last() =~= Seq::<char>::empty());
}

/// The value of an address record is an address of its kind, that of a name record a domain, a
/// text is bounded, and no other type has a value.
pub proof fn values_go_by_their_type(t: Seq<char>, v: Seq<char>)
    ensures
        is_record_value("A"@, v) <==> ipv4(v) is Some,
        is_record_value("AAAA"@, v) <==> is_ipv6(v),
        is_record_value("CNAME"@, v) <==> is_domain(v),
        is_record_value("NS"@, v) <==> is_domain(v),
        is_record_value("PTR"@, v) <==> is_domain(v),
        is_record_value("MX"@, v) <==> is_domain(v),
        is_record_value("TXT"@, v) <==> byte_len(v) <= 4096,
        t != "A"@ && t != "AAAA"@ && t != "CNAME"@ && t != "NS"@ && t != "PTR"@ && t != "MX"@ && t != "TXT"@
            ==> !is_record_value(t, v),
{
    reveal_strlit("A");
    reveal_strlit("AAAA");
    reveal_strlit("CNAME");
    reveal_strlit("NS");
    reveal_strlit("PTR");
    reveal_strlit("MX");
    reveal_strlit("TXT");
    assert("A"@.len() == 1 && "AAAA"@.len() == 4 && "CNAME"@.len() == 5 && "NS"@.len() == 2 && "PTR"@.len() == 3);
    assert("MX"@.len() == 2 && "TXT"@.len() == 3 && "TXT"@[0] == 'T' && "PTR"@[0] == 'P');
}

/// A list allows, denies, refuses or allows snooping.
pub proof fn actions_of_access_lists(s: Seq<char>)
    ensures
        is_acl_action("allow"@),
        is_acl_action("deny"@),
        is_acl_action("refuse"@),
        is_acl_action("allow_snoop"@),
        s != "allow"@ && s != "deny"@ && s != "refuse"@ && s != "allow_snoop"@ ==> !is_acl_action(s),
{
}

/// A network is an address, alone or with a number of at most 255 behind a slash.
pub proof fn networks_are_addresses_with_a_length(a: Seq<char>, b: Seq<char>)
    requires
        !a.contains('/'),
    ensures
        is_network(a) <==> is_ip(a),
        is_network(a + seq!['/'] + b) <==> is_ip(a) && parsed(b, 255) is Some,
{
    let s = a + seq!['/'] + b;
    assert(s[a.len() as int] == '/');
    assert forall|k: int| 0 <= k < a.len() implies s[k] != '/' by {
        assert(s[k] == a[k]);
        assert(a.contains(a[k]));
    }
    lemma_first_slash(s, a.len() as int);
    assert(s.take(a.len() as int) =~= a);
    assert(s.skip(a.len() as int + 1) =~= b);
    assert(s.contains('/'));
}

} // verus!
