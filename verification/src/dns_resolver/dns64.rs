//! The DNS64 prefix.

use vstd::prelude::*;

use crate::net::{cut_at_slash, first_slash, ipv6_ok, is_ipv6, lemma_first_slash};
use crate::text::{cat3, same, trim, trim_is_idempotent, trimmed};

verus! {

/// The address part of a prefix and its length part, which is `96` where the
/// prefix states none.
pub open spec fn prefix_parts(s: Seq<char>) -> (Seq<char>, Seq<char>) {
    if s.contains('/') {
        (s.take(first_slash(s)), s.skip(first_slash(s) + 1))
    } else {
        (s, "96"@)
    }
}

/// The length part of a prefix is 96, the only length that is supported.
pub open spec fn has_length_96(s: Seq<char>) -> bool {
    trim(prefix_parts(s).1) == "96"@
}

/// A prefix that DNS64 can use: an IPv6 address, or one with `/96`.
pub open spec fn dns64_prefix_ok(s: Seq<char>) -> bool {
    has_length_96(s) && is_ipv6(trim(prefix_parts(s).0))
}

/// Checks a DNS64 prefix. The value goes into the resolver's configuration
/// file as it is, so what does not parse is rejected with a message.
pub fn validate_dns64_prefix(s: &str) -> (r: Result<(), String>)
    ensures
        r is Ok <==> dns64_prefix_ok(s@),
        r matches Err(m) ==> m@ == if !has_length_96(s@) {
            "dns64_prefix must be an IPv6 /96 prefix (e.g. 64:ff9b::/96), got '"@ + s@ + "'"@
        } else {
            "dns64_prefix is not a valid IPv6 prefix: '"@ + s@ + "'"@
        },
{
    proof {
        reveal_strlit("96");
        assert(crate::text::is_trimmed("96"@)) by {
            assert("96"@[0] == '9');
            assert("96"@.last() == '6');
        }
        crate::text::trim_is_idempotent("96"@);
    }
    let (addr, len) = match cut_at_slash(s) {
        Some((a, l)) => (a, l),
        None => (s.to_owned(), "96".to_owned()),
    };
    let len = trimmed(len.as_str());
    if !same(len.as_str(), "96") {
        return Err(cat3("dns64_prefix must be an IPv6 /96 prefix (e.g. 64:ff9b::/96), got '", s, "'"));
    }
    let addr = trimmed(addr.as_str());
    if !ipv6_ok(addr.as_str()) {
        return Err(cat3("dns64_prefix is not a valid IPv6 prefix: '", s, "'"));
    }
    Ok(())
}

// ---------------------------------------------------------------------------
// Laws
// ---------------------------------------------------------------------------

/// A prefix is an address of IPv6, alone or with a length of 96 behind a slash.
pub proof fn prefixes_have_96_bits(a: Seq<char>, b: Seq<char>)
    requires
        !a.contains('/'),
    ensures
        dns64_prefix_ok(a) <==> is_ipv6(trim(a)),
        dns64_prefix_ok(a + seq!['/'] + b) <==> is_ipv6(trim(a)) && trim(b) == seq!['9', '6'],
        has_length_96(a),
        has_length_96(a + seq!['/'] + b) <==> trim(b) == seq!['9', '6'],
{
    reveal_strlit("96");
    assert("96"@ =~= seq!['9', '6']);
    trim_is_idempotent("96"@);
    let s = a + seq!['/'] + b;
    assert(s[a.len() as int] == '/');
    assert forall|k: int| 0 <= k < a.len() implies s[k] != '/' by {
        assert(s[k] == a[k]);
        assert(a.contains(a[k]));
    }
    lemma_first_slash(s, a.len() as int);
    assert(s.take(a.len() as int) =~= a);
    assert(s.skip(a.len() as int + 1) =~= b);
    assert(s.contains('/'));
}

} // verus!
