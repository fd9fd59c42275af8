//! Internet addresses in text: which texts are IPv4 and IPv6 addresses, what
//! number an IPv4 address is, and which addresses lie in a network.

use vstd::arithmetic::power2::pow2;
use vstd::prelude::*;
use vstd::string::*;

use crate::number::{dec, is_digit, is_digits, parse_max, parsed, unsigned_part, value};
use crate::text::{chars_of, join, split, split_of_join, split_pieces, split_text, text_between, views};

verus! {

// ---------------------------------------------------------------------------
// IPv4
// ---------------------------------------------------------------------------

/// One decimal octet: one to three digits, no needless leading zero, at most 255.
pub open spec fn is_octet(s: Seq<char>) -> bool {
    &&& is_digits(s)
    &&& s.len() <= 3
    &&& s.len() > 1 ==> s[0] != '0'
    &&& value(s) <= 255
}

/// The 32-bit number of the dotted-quad address `s`, if `s` is one.
pub open spec fn ipv4(s: Seq<char>) -> Option<nat> {
    let p = split(s, '.');
    if p.len() == 4 && is_octet(p[0]) && is_octet(p[1]) && is_octet(p[2]) && is_octet(p[3]) {
        Some(value(p[0]) * 16777216 + value(p[1]) * 65536 + value(p[2]) * 256 + value(p[3]))
    } else {
        None
    }
}

/// The octet that `s` writes.
fn parse_octet(s: &str) -> (r: Option<u32>)
    ensures
        match r {
            Some(n) => is_octet(s@) && n == value(s@) && n <= 255,
            None => !is_octet(s@),
        },
{
    let v = chars_of(s);
    if v.len() == 0 || v.len() > 3 || (v.len() > 1 && v[0] == '0') || v[0] == '+' {
        proof {
            if is_octet(s@) {
                assert(is_digit(s@[0]));
            }
        }
        return None;
    }
    assert(unsigned_part(s@) == s@);
    match parse_max(s, 255) {
        Some(n) => Some(n as u32),
        None => None,
    }
}

/// `str::parse::<Ipv4Addr>`, as a 32-bit number with the first octet on top.
pub fn parse_ipv4(s: &str) -> (r: Option<u32>)
    ensures
        match r {
            Some(n) => ipv4(s@) == Some(n as nat),
            None => ipv4(s@) is None,
        },
{
    let p = split_text(s, '.');
    assert(views(p@).len() == p@.len());
    if p.len() != 4 {
        return None;
    }
    match (
        parse_octet(p[0].as_str()),
        parse_octet(p[1].as_str()),
        parse_octet(p[2].as_str()),
        parse_octet(p[3].as_str()),
    ) {
        (Some(a), Some(b), Some(c), Some(d)) => {
            Some(a * 16777216 + b * 65536 + c * 256 + d)
        },
        _ => None,
    }
}

/// Whether an address is in `127.0.0.0/8`.
pub open spec fn loopback(ip: nat) -> bool {
    ip / 16777216 == 127
}

/// `Ipv4Addr::is_loopback`.
pub fn is_loopback(ip: u32) -> (r: bool)
    ensures
        r == loopback(ip as nat),
{
    ip / 16777216 == 127
}

/// Whether `ip` and `net` agree on their first `prefix` bits.
pub open spec fn in_subnet(ip: nat, net: nat, prefix: nat) -> bool {
    ip / pow2((32 - prefix) as nat) == net / pow2((32 - prefix) as nat)
}

/// Decides [`in_subnet`].
pub fn ipv4_in_subnet(ip: u32, net: u32, prefix: u8) -> (r: bool)
    requires
        prefix <= 32,
    ensures
        r == in_subnet(ip as nat, net as nat, prefix as nat),
{
    if prefix == 0 {
        proof {
            vstd::arithmetic::power2::lemma2_to64();
            assert(ip as nat / 0x100000000 == 0) by (nonlinear_arith)
                requires
                    ip as nat <= 0xffffffff,
            ;
            assert(net as nat / 0x100000000 == 0) by (nonlinear_arith)
                requires
                    net as nat <= 0xffffffff,
            ;
        }
        return true;
    }
    let shift: u32 = 32 - prefix as u32;
    proof {
        vstd::bits::lemma_u32_shr_is_div(ip, shift);
        vstd::bits::lemma_u32_shr_is_div(net, shift);
    }
    (ip >> shift) == (net >> shift)
}

/// Every address is in the network of its own prefix, and being in one
/// network is a relation that does not depend on which of two addresses
/// names the network.
pub proof fn in_subnet_is_an_equivalence(a: nat, b: nat, c: nat, prefix: nat)
    requires
        prefix <= 32,
    ensures
        in_subnet(a, a, prefix),
        in_subnet(a, b, prefix) == in_subnet(b, a, prefix),
        in_subnet(a, b, prefix) && in_subnet(b, c, prefix) ==> in_subnet(a, c, prefix),
{
}

/// Two addresses that agree on a prefix agree on every shorter one.
pub proof fn shorter_prefix_keeps_the_match(a: nat, b: nat, prefix: nat, shorter: nat)
    requires
        shorter <= prefix <= 32,
        in_subnet(a, b, prefix),
    ensures
        in_subnet(a, b, shorter),
{
    let low = (32 - prefix) as nat;
    let more = (prefix - shorter) as nat;
    vstd::arithmetic::power2::lemma_pow2_adds(low, more);
    vstd::arithmetic::power2::lemma_pow2_pos(low);
    vstd::arithmetic::power2::lemma_pow2_pos(more);
    vstd::arithmetic::div_mod::lemma_div_denominator(a as int, pow2(low) as int, pow2(more) as int);
    vstd::arithmetic::div_mod::lemma_div_denominator(b as int, pow2(low) as int, pow2(more) as int);
}

/// An address and a prefix length, written `a.b.c.d/p`.
pub open spec fn v4_cidr(s: Seq<char>) -> Option<(nat, nat)> {
    if exists|i: int| 0 <= i < s.len() && s[i] == '/' {
        let i = first_slash(s);
        let ip = ipv4(s.take(i));
        let prefix = parsed(s.skip(i + 1), 255);
        if ip is Some && prefix is Some && prefix->0 <= 32 {
            Some((ip->0, prefix->0))
        } else {
            None
        }
    } else {
        None
    }
}

/// The index of the first slash of `s`, or the length of `s`.
pub open spec fn first_slash(s: Seq<char>) -> int
    decreases s.len(),
{
    if s.len() == 0 || s[0] == '/' {
        0
    } else {
        1 + first_slash(s.skip(1))
    }
}

pub(crate) proof fn lemma_first_slash(s: Seq<char>, i: int)
    requires
        0 <= i < s.len(),
        s[i] == '/',
        forall|k: int| 0 <= k < i ==> s[k] != '/',
    ensures
        first_slash(s) == i,
    decreases i,
{
    if i > 0 {
        assert(s[0] != '/');
        assert forall|k: int| 0 <= k < i - 1 implies s.skip(1)[k] != '/' by {
            assert(s.skip(1)[k] == s[k + 1]);
        }
        lemma_first_slash(s.skip(1), i - 1);
    }
}

/// `s` cut at its first slash.
pub fn cut_at_slash(s: &str) -> (r: Option<(String, String)>)
    ensures
        match r {
            Some((a, b)) => s@.contains('/') && a@ == s@.take(first_slash(s@)) && b@ == s@.skip(
                first_slash(s@) + 1,
            ),
            None => !s@.contains('/'),
        },
{
    let v = chars_of(s);
    let mut i: usize = 0;
    while i < v.len()
        invariant
            i <= v@.len(),
            v@ == s@,
            forall|k: int| 0 <= k < i ==> v@[k] != '/',
        decreases v.len() - i,
    {
        if v[i] == '/' {
            proof {
                lemma_first_slash(s@, i as int);
            }
            let a = text_between(&v, 0, i);
            let b = text_between(&v, i + 1, v.len());
            assert(a@ =~= s@.take(i as int));
            assert(b@ =~= s@.skip(i + 1));
            return Some((a, b));
        }
        i = i + 1;
    }
    None
}

/// The address and prefix length that `cidr` writes.
pub fn parse_v4_cidr(cidr: &str) -> (r: Option<(u32, u8)>)
    ensures
        match r {
            Some((ip, prefix)) => v4_cidr(cidr@) == Some((ip as nat, prefix as nat)) && prefix <= 32,
            None => v4_cidr(cidr@) is None,
        },
{
    match cut_at_slash(cidr) {
        Some((ip_str, prefix_str)) => {
            proof {
                let i = choose|i: int| 0 <= i < cidr@.len() && cidr@[i] == '/';
                assert(cidr@[i] == '/');
            }
            match (parse_ipv4(ip_str.as_str()), parse_max(prefix_str.as_str(), 255)) {
                (Some(ip), Some(prefix)) => if prefix <= 32 {
                    Some((ip, prefix as u8))
                } else {
                    None
                },
                _ => None,
            }
        },
        None => None,
    }
}

// ---------------------------------------------------------------------------
// IPv6
// ---------------------------------------------------------------------------

/// A hexadecimal digit.
pub open spec fn is_hex(c: char) -> bool {
    '0' <= c <= '9' || 'a' <= c <= 'f' || 'A' <= c <= 'F'
}

/// Decides [`is_hex`].
pub fn is_hex_char(c: char) -> (r: bool)
    ensures
        r == is_hex(c),
{
    ('0' <= c && c <= '9') || ('a' <= c && c <= 'f') || ('A' <= c && c <= 'F')
}

/// One 16-bit group: one to four hexadecimal digits.
pub open spec fn is_group(s: Seq<char>) -> bool {
    1 <= s.len() <= 4 && forall|i: int| 0 <= i < s.len() ==> is_hex(#[trigger] s[i])
}

/// How many 16-bit groups the colon-separated list `s` fills, if it is a list
/// of groups. Where `v4_tail` allows it, the last piece may be a dotted-quad
/// address, which fills two groups. The empty text is the empty list.
pub open spec fn group_count(s: Seq<char>, v4_tail: bool) -> Option<nat> {
    let p = split(s, ':');
    if s.len() == 0 {
        Some(0)
    } else if !(forall|i: int| 0 <= i < p.len() - 1 ==> is_group(#[trigger] p[i])) {
        None
    } else if is_group(p.last()) {
        Some(p.len())
    } else if v4_tail && ipv4(p.last()) is Some {
        Some(p.len() + 1)
    } else {
        None
    }
}

/// `i` is the index of the first `::` of `s`.
pub open spec fn is_first_gap(s: Seq<char>, i: int) -> bool {
    &&& 0 <= i
    &&& i + 1 < s.len()
    &&& s[i] == ':' && s[i + 1] == ':'
    &&& forall|k: int| 0 <= k < i ==> !(#[trigger] s[k] == ':' && s[k + 1] == ':')
}

/// `s` has no `::`.
pub open spec fn has_no_gap(s: Seq<char>) -> bool {
    forall|k: int| 0 <= k < s.len() - 1 ==> !(#[trigger] s[k] == ':' && s[k + 1] == ':')
}

/// The gap at `i` stands for at least one group: the groups before it (none of
/// them a dotted quad) and behind it are at most seven.
pub open spec fn gap_fits(s: Seq<char>, i: int) -> bool {
    let head = group_count(s.take(i), false);
    let tail = group_count(s.skip(i + 2), true);
    head is Some && tail is Some && head->0 + tail->0 <= 7
}

/// `s` is an IPv6 address: eight groups, or fewer around one `::`.
pub open spec fn is_ipv6(s: Seq<char>) -> bool {
    ||| has_no_gap(s) && group_count(s, true) == Some(8nat)
    ||| exists|i: int| is_first_gap(s, i) && gap_fits(s, i)
}

/// `s` is an IPv4 or an IPv6 address.
pub open spec fn is_ip(s: Seq<char>) -> bool {
    ipv4(s) is Some || is_ipv6(s)
}

fn group(s: &str) -> (r: bool)
    ensures
        r == is_group(s@),
{
    let v = chars_of(s);
    if v.len() == 0 || v.len() > 4 {
        return false;
    }
    let mut i: usize = 0;
    while i < v.len()
        invariant
            i <= v@.len(),
            v@ == s@,
            forall|k: int| 0 <= k < i ==> is_hex(#[trigger] v@[k]),
        decreases v.len() - i,
    {
        if !is_hex_char(v[i]) {
            return false;
        }
        i = i + 1;
    }
    true
}

fn count_groups(s: &str, v4_tail: bool) -> (r: Option<usize>)
    ensures
        match r {
            Some(n) => group_count(s@, v4_tail) == Some(n as nat),
            None => group_count(s@, v4_tail) is None || group_count(s@, v4_tail)->0 >= usize::MAX,
        },
{
    if s.is_empty() {
        return Some(0);
    }
    let p = split_text(s, ':');
    let ghost q = split(s@, ':');
    proof {
        split_pieces(s@, ':');
        assert(views(p@).len() == p@.len());
    }
    let n: usize = p.len();
    let mut i: usize = 0;
    while i < n - 1
        invariant
            i <= n - 1,
            n == p@.len(),
            n >= 1,
            q == views(p@),
            q == split(s@, ':'),
            s@.len() > 0,
            forall|k: int| 0 <= k < i ==> is_group(#[trigger] q[k]),
        decreases n - i,
    {
        if !group(p[i].as_str()) {
            assert(!is_group(q[i as int]));
            return None;
        }
        i = i + 1;
    }
    assert(q.last() == p@[n - 1]@);
    if group(p[n - 1].as_str()) {
        return Some(n);
    }
    if v4_tail && n < usize::MAX {
        match parse_ipv4(p[n - 1].as_str()) {
            Some(_) => Some(n + 1),
            None => None,
        }
    } else {
        None
    }
}

/// `str::parse::<Ipv6Addr>` succeeds.
pub fn ipv6_ok(s: &str) -> (r: bool)
    ensures
        r == is_ipv6(s@),
{
    let v = chars_of(s);
    let n: usize = v.len();
    let mut i: usize = 0;
    while i < n && n - i > 1
        invariant
            i <= n,
            n == v@.len(),
            v@ == s@,
            forall|k: int| 0 <= k < i ==> !(#[trigger] s@[k] == ':' && s@[k + 1] == ':'),
        decreases n - i,
    {
        if v[i] == ':' && v[i + 1] == ':' {
            let head_text = text_between(&v, 0, i);
            let tail_text = text_between(&v, i + 2, n);
            assert(head_text@ =~= s@.take(i as int));
            assert(tail_text@ =~= s@.skip(i + 2));
            let head = count_groups(head_text.as_str(), false);
            let tail = count_groups(tail_text.as_str(), true);
            assert(is_first_gap(s@, i as int));
            assert(!has_no_gap(s@)) by {
                assert(s@[i as int] == ':');
            }
            assert forall|k: int| is_first_gap(s@, k) implies k == i by {
                if k < i {
                    assert(s@[k] == ':');
                } else if k > i {
                    assert(s@[i as int] == ':');
                }
            }
            return match (head, tail) {
                (Some(a), Some(b)) => a <= 7 && b <= 7 && a + b <= 7,
                _ => false,
            };
        }
        i = i + 1;
    }
    assert(has_no_gap(s@));
    assert forall|k: int| !is_first_gap(s@, k) by {
        if is_first_gap(s@, k) {
            assert(s@[k] == ':');
        }
    }
    match count_groups(s, true) {
        Some(n) => n == 8,
        None => false,
    }
}

/// `str::parse::<IpAddr>` succeeds.
pub fn ip_ok(s: &str) -> (r: bool)
    ensures
        r == is_ip(s@),
{
    match parse_ipv4(s) {
        Some(_) => true,
        None => ipv6_ok(s),
    }
}

// ---------------------------------------------------------------------------
// Laws
// ---------------------------------------------------------------------------

/// A network is a run of addresses: those that share the leading bits of its own
/// address, from the one whose other bits are all zero to the one whose other
/// bits are all one.
pub proof fn network_is_a_run_of_addresses(ip: nat, net: nat, prefix: nat)
    requires
        prefix <= 32,
    ensures
        ({
            let size = pow2((32 - prefix) as nat);
            let first = net - net % size;
            in_subnet(ip, net, prefix) <==> first <= ip < first + size
        }),
{
    let size = pow2((32 - prefix) as nat) as int;
    vstd::arithmetic::power2::lemma_pow2_pos((32 - prefix) as nat);
    let a = ip as int;
    let b = net as int;
    vstd::arithmetic::div_mod::lemma_fundamental_div_mod(a, size);
    vstd::arithmetic::div_mod::lemma_fundamental_div_mod(b, size);
    vstd::arithmetic::div_mod::lemma_mod_bound(a, size);
    vstd::arithmetic::div_mod::lemma_mod_bound(b, size);
    let q = a / size;
    let r = b / size;
    assert(b - b % size == size * r);
    if q == r {
    } else if q < r {
        assert(size * q + size <= size * r) by (nonlinear_arith)
            requires
                q + 1 <= r,
                size > 0,
        ;
    } else {
        assert(size * r + size <= size * q) by (nonlinear_arith)
            requires
                r + 1 <= q,
                size > 0,
        ;
    }
}

/// The loopback addresses are those from 127.0.0.0 to 127.255.255.255.
pub proof fn loopback_is_one_block(ip: nat)
    ensures
        loopback(ip) <==> 2130706432 <= ip <= 2147483647,
{
}

proof fn lemma_octet_of_dec(n: nat)
    requires
        n <= 255,
    ensures
        is_octet(dec(n)),
        value(dec(n)) == n,
        !dec(n).contains('.'),
        !dec(n).contains('/'),
{
    reveal_with_fuel(dec, 4);
    crate::number::value_of_dec(n);
    assert forall|i: int| 0 <= i < dec(n).len() implies dec(n)[i] != '.' && dec(n)[i] != '/' by {
        assert(is_digit(dec(n)[i]));
    }
    if n >= 100 {
        assert(dec(n)[0] == crate::number::digit(n / 10 / 10));
    } else if n >= 10 {
        assert(dec(n)[0] == crate::number::digit(n / 10));
    }
}

/// The dotted form of four numbers.
pub open spec fn dotted(a: nat, b: nat, c: nat, d: nat) -> Seq<char> {
    dec(a) + seq!['.'] + dec(b) + seq!['.'] + dec(c) + seq!['.'] + dec(d)
}

/// The dotted form of four bytes is read as the address that they make, the
/// first byte in the highest place.
pub proof fn dotted_bytes_make_an_address(a: nat, b: nat, c: nat, d: nat)
    requires
        a <= 255,
        b <= 255,
        c <= 255,
        d <= 255,
    ensures
        ipv4(dotted(a, b, c, d)) == Some((((a * 256 + b) * 256 + c) * 256 + d) as nat),
{
    lemma_octet_of_dec(a);
    lemma_octet_of_dec(b);
    lemma_octet_of_dec(c);
    lemma_octet_of_dec(d);
    let l = Seq::<Seq<char>>::empty().push(dec(a)).push(dec(b)).push(dec(c)).push(dec(d));
    let sep = seq!['.'];
    reveal_with_fuel(join, 5);
    let l3 = l.drop_last();
    let l2 = l3.drop_last();
    let l1 = l2.drop_last();
    assert(l1 =~= Seq::<Seq<char>>::empty().push(dec(a)));
    assert(l2 =~= Seq::<Seq<char>>::empty().push(dec(a)).push(dec(b)));
    assert(l3 =~= Seq::<Seq<char>>::empty().push(dec(a)).push(dec(b)).push(dec(c)));
    assert(join(l1, sep) == dec(a));
    assert(join(l2, sep) == dec(a) + sep + dec(b));
    assert(join(l3, sep) == dec(a) + sep + dec(b) + sep + dec(c));
    assert(join(l, sep) == dotted(a, b, c, d));
    split_of_join(l, '.');
}

proof fn lemma_no_slash(a: nat, b: nat, c: nat, d: nat)
    requires
        a <= 255,
        b <= 255,
        c <= 255,
        d <= 255,
    ensures
        !dotted(a, b, c, d).contains('/'),
{
    lemma_octet_of_dec(a);
    lemma_octet_of_dec(b);
    lemma_octet_of_dec(c);
    lemma_octet_of_dec(d);
    let s = seq!['.'];
    assert(!s.contains('/'));
    crate::lists::append_holds(dec(a), s, '/');
    crate::lists::append_holds(dec(a) + s, dec(b), '/');
    crate::lists::append_holds(dec(a) + s + dec(b), s, '/');
    crate::lists::append_holds(dec(a) + s + dec(b) + s, dec(c), '/');
    crate::lists::append_holds(dec(a) + s + dec(b) + s + dec(c), s, '/');
    crate::lists::append_holds(dec(a) + s + dec(b) + s + dec(c) + s, dec(d), '/');
}

/// A network is written as its address, a slash and how many bits lead; more
/// than 32 bits make no network.
pub proof fn address_and_bits_make_a_network(a: nat, b: nat, c: nat, d: nat, prefix: nat)
    requires
        a <= 255,
        b <= 255,
        c <= 255,
        d <= 255,
        prefix <= 255,
    ensures
        prefix <= 32 ==> v4_cidr(dotted(a, b, c, d) + seq!['/'] + dec(prefix)) == Some(
            ((((a * 256 + b) * 256 + c) * 256 + d) as nat, prefix),
        ),
        prefix > 32 ==> v4_cidr(dotted(a, b, c, d) + seq!['/'] + dec(prefix)) is None,
        v4_cidr(dotted(a, b, c, d)) is None,
{
    let t = dotted(a, b, c, d);
    let s = t + seq!['/'] + dec(prefix);
    lemma_no_slash(a, b, c, d);
    dotted_bytes_make_an_address(a, b, c, d);
    crate::number::parsed_of_dec(prefix, 255);
    assert(s[t.len() as int] == '/');
    assert forall|k: int| 0 <= k < t.len() implies s[k] != '/' by {
        assert(s[k] == t[k]);
        assert(t.contains(t[k]));
    }
    lemma_first_slash(s, t.len() as int);
    assert(s.take(t.len() as int) =~= t);
    assert(s.skip(t.len() as int + 1) =~= dec(prefix));
    if exists|i: int| 0 <= i < t.len() && t[i] == '/' {
        let i = choose|i: int| 0 <= i < t.len() && t[i] == '/';
        assert(t.contains(t[i]));
    }
}

/// An IPv6 address is eight groups of one to four hexadecimal digits, where one
/// gap may stand for groups of zeros and an IPv4 address for the last two
/// groups. No text is an address of both kinds.
pub proof fn addresses_are_of_one_kind(s: Seq<char>)
    ensures
        ipv4(s) is Some ==> !s.contains(':') && is_ip(s),
        is_ipv6(s) ==> s.contains(':') && is_ip(s),
        is_ip(s) ==> ipv4(s) is Some || is_ipv6(s),
        !(ipv4(s) is Some && is_ipv6(s)),
{
    if ipv4(s) is Some {
        let p = split(s, '.');
        crate::text::join_of_split(s, '.');
        if s.contains(':') {
            lemma_piece_holds(s, '.', ':');
            let i = choose|i: int| 0 <= i < p.len() && p[i].contains(':');
            let k = choose|k: int| 0 <= k < p[i].len() && p[i][k] == ':';
            assert(is_digit(p[i][k]));
        }
    }
    if is_ipv6(s) {
        if exists|i: int| is_first_gap(s, i) && gap_fits(s, i) {
            let i = choose|i: int| is_first_gap(s, i) && gap_fits(s, i);
            assert(s[i] == ':');
        } else {
            if !s.contains(':') {
                lemma_split_alone(s, ':');
            }
        }
    }
}

proof fn lemma_split_alone(s: Seq<char>, sep: char)
    requires
        !s.contains(sep),
    ensures
        split(s, sep) == seq![s],
    decreases s.len(),
{
    if s.len() > 0 {
        assert(s.last() != sep) by {
            assert(s.contains(s[s.len() - 1]));
        }
        assert(!s.drop_last().contains(sep)) by {
            if s.drop_last().contains(sep) {
                let i = choose|i: int| 0 <= i < s.drop_last().len() && s.drop_last()[i] == sep;
                assert(s[i] == sep);
            }
        }
        lemma_split_alone(s.drop_last(), sep);
        assert(s.drop_last().push(s.last()) =~= s);
        assert(split(s, sep) =~= seq![s]);
    } else {
        assert(s =~= Seq::<char>::empty());
    }
}

proof fn lemma_piece_holds(s: Seq<char>, sep: char, c: char)
    requires
        s.contains(c),
        c != sep,
    ensures
        exists|i: int| 0 <= i < split(s, sep).len() && (#[trigger] split(s, sep)[i]).contains(c),
    decreases s.len(),
{
    split_pieces(s, sep);
    let t = s.drop_last();
    split_pieces(t, sep);
    let init = split(t, sep);
    let p = split(s, sep);
    if s.last() == c {
        let last = p[p.len() - 1];
        assert(last == init.last().push(c));
        assert(last[last.len() - 1] == c);
        assert(last.contains(c));
    } else {
        let k = choose|k: int| 0 <= k < s.len() && s[k] == c;
        assert(t[k] == c);
        lemma_piece_holds(t, sep, c);
        let i = choose|i: int| 0 <= i < init.len() && (#[trigger] init[i]).contains(c);
        if s.last() == sep {
            assert(p[i] == init[i]);
        } else if i == init.len() - 1 {
            let x = choose|x: int| 0 <= x < init[i].len() && init[i][x] == c;
            assert(p[i] == init[i].push(s.last()));
            assert(p[i][x] == c);
        } else {
            assert(p[i] == init[i]);
        }
    }
}

/// The gap alone is an address, and so are eight groups; seven groups are none.
pub proof fn groups_make_an_address(g: Seq<Seq<char>>)
    requires
        g.len() > 0,
        forall|i: int| 0 <= i < g.len() ==> is_group(#[trigger] g[i]),
    ensures
        is_ipv6(join(g, seq![':'])) <==> g.len() == 8,
{
    let s = join(g, seq![':']);
    assert forall|i: int| 0 <= i < g.len() implies !(#[trigger] g[i]).contains(':') by {
        if g[i].contains(':') {
            let k = choose|k: int| 0 <= k < g[i].len() && g[i][k] == ':';
            assert(is_hex(g[i][k]));
        }
    }
    split_of_join(g, ':');
    assert(is_group(g[0]) && is_group(g[g.len() - 1]));
    lemma_no_gap(g);
    lemma_join_filled(g);
}

proof fn lemma_join_filled(g: Seq<Seq<char>>)
    requires
        g.len() > 0,
        forall|i: int| 0 <= i < g.len() ==> is_group(#[trigger] g[i]),
    ensures
        join(g, seq![':']).len() > 0,
        join(g, seq![':']).last() != ':',
{
    let last = g[g.len() - 1];
    assert(is_group(last));
    assert(is_hex(last[last.len() - 1]));
    let s = join(g, seq![':']);
    if g.len() > 1 {
        assert(s.last() == last.last());
    }
}

proof fn lemma_no_gap(g: Seq<Seq<char>>)
    requires
        g.len() > 0,
        forall|i: int| 0 <= i < g.len() ==> is_group(#[trigger] g[i]),
    ensures
        has_no_gap(join(g, seq![':'])),
    decreases g.len(),
{
    let s = join(g, seq![':']);
    let last = g[g.len() - 1];
    assert(is_group(last));
    assert forall|k: int| 0 <= k < last.len() implies last[k] != ':' by {
        assert(is_hex(last[k]));
    }
    if g.len() > 1 {
        let init = g.drop_last();
        assert forall|i: int| 0 <= i < init.len() implies is_group(#[trigger] init[i]) by {
            assert(init[i] == g[i]);
        }
        lemma_no_gap(init);
        lemma_join_filled(init);
        let t = join(init, seq![':']);
        assert(s == t + seq![':'] + last);
        assert forall|k: int| 0 <= k < s.len() - 1 implies !(#[trigger] s[k] == ':' && s[k + 1] == ':') by {
            if k < t.len() - 1 {
                assert(s[k] == t[k] && s[k + 1] == t[k + 1]);
            } else if k == t.len() - 1 {
                assert(s[k] == t.last());
            } else if k == t.len() {
                assert(s[k + 1] == last[0]);
            } else {
                assert(s[k] == last[k - t.len() - 1]);
            }
        }
    } else {
        assert(s == last);
    }
}

} // verus!
