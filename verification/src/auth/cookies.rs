//! Session cookies for the browser.
//!
//! The access cookie goes along with every request; the refresh cookie only
//! with those to the authentication endpoints. Both are out of the reach of
//! scripts and of other sites.

use vstd::prelude::*;
use vstd::string::*;

use crate::auth::settings::AuthSettings;
use crate::number::{dec_int, fmt_i64};
use crate::text::{
    append_lines, cat5, has_prefix, has_suffix, has_text, occurs_at, push_line, same, split, split_once, split_text,
    trim, trimmed, views,
};

verus! {

/// The cookie with the access token.
pub const ACCESS_COOKIE: &'static str = "aifw_at";

/// The cookie with the refresh token.
pub const REFRESH_COOKIE: &'static str = "aifw_rt";

/// Where the refresh cookie goes.
pub const REFRESH_PATH: &'static str = "/api/v1/auth";

/// The header that a request with a cookie must carry to change something.
pub const CSRF_HEADER: &'static str = "x-aifw-csrf";

/// The tokens of a session.
#[derive(Clone, Debug)]
pub struct TokenPair {
    pub access_token: String,
    pub refresh_token: String,
    pub access_expires_at: String,
    pub refresh_expires_at: String,
    pub token_type: String,
}

// ---------------------------------------------------------------------------
// Header values
// ---------------------------------------------------------------------------

/// A byte that a header value shows as text: printable ASCII, or a tab.
pub open spec fn is_visible(b: u8) -> bool {
    32 <= b < 127 || b == 9
}

/// The text of a header value: there is one where every byte is visible.
pub open spec fn header_text(bytes: Seq<u8>) -> Option<Seq<char>> {
    if forall|i: int| 0 <= i < bytes.len() ==> is_visible(#[trigger] bytes[i]) {
        Some(bytes.map_values(|b: u8| b as char))
    } else {
        None
    }
}

/// `http::HeaderValue::to_str` on the value with these bytes: the bytes as
/// text where each is printable ASCII or a tab, nothing elsewhere.
#[verifier::external_body]
pub(crate) fn header_str(bytes: &[u8]) -> (r: Option<String>)
    ensures
        crate::kv::option_view(r) == header_text(bytes@),
{
    let value = axum::http::HeaderValue::from_bytes(bytes).ok()?;
    value.to_str().ok().map(String::from)
}

/// A character that a header value may hold: no control character but a tab.
pub open spec fn is_header_char(c: char) -> bool {
    c == '\t' || (c >= ' ' && c != '\x7f')
}

/// A text that can be a header value.
pub open spec fn is_header_value(s: Seq<char>) -> bool {
    forall|i: int| 0 <= i < s.len() ==> is_header_char(#[trigger] s[i])
}

/// `http::HeaderValue::from_str`: whether it takes the text. It does where no
/// byte is below 32, a tab apart, and none is 127.
#[verifier::external_body]
pub(crate) fn header_accepts(s: &str) -> (r: bool)
    ensures
        r == is_header_value(s@),
{
    axum::http::HeaderValue::from_str(s).is_ok()
}

// ---------------------------------------------------------------------------
// Reading
// ---------------------------------------------------------------------------

/// The pairs of the cookie headers, in order; a header that is no text is
/// passed over.
pub open spec fn cookie_pairs(headers: Seq<Vec<u8>>) -> Seq<Seq<char>>
    decreases headers.len(),
{
    if headers.len() == 0 {
        Seq::<Seq<char>>::empty()
    } else {
        match header_text(headers.last()@) {
            Some(t) => cookie_pairs(headers.drop_last()) + split(t, ';'),
            None => cookie_pairs(headers.drop_last()),
        }
    }
}

/// What stands before the first `c`: everything where there is none.
pub open spec fn before_first(s: Seq<char>, c: char) -> Seq<char>
    decreases s.len(),
{
    if s.len() == 0 || s[0] == c {
        Seq::<char>::empty()
    } else {
        seq![s[0]] + before_first(s.skip(1), c)
    }
}

/// What stands behind the first `c`: nothing where there is none.
pub open spec fn behind_first(s: Seq<char>, c: char) -> Seq<char>
    decreases s.len(),
{
    if s.len() == 0 {
        Seq::<char>::empty()
    } else if s[0] == c {
        s.skip(1)
    } else {
        behind_first(s.skip(1), c)
    }
}

proof fn lemma_cut(a: Seq<char>, c: char, b: Seq<char>)
    requires
        !a.contains(c),
    ensures
        before_first(a + seq![c] + b, c) == a,
        behind_first(a + seq![c] + b, c) == b,
    decreases a.len(),
{
    let s = a + seq![c] + b;
    if a.len() == 0 {
        assert(s[0] == c);
        assert(before_first(s, c) =~= a);
        assert(s.skip(1) =~= b);
    } else {
        assert(a.contains(a[0]));
        assert forall|x: char| a.skip(1).contains(x) implies a.contains(x) by {
            let i = choose|i: int| 0 <= i < a.skip(1).len() && a.skip(1)[i] == x;
            assert(a[i + 1] == x);
        }
        lemma_cut(a.skip(1), c, b);
        assert(s.skip(1) =~= a.skip(1) + seq![c] + b);
        assert(s[0] == a[0]);
        assert(seq![a[0]] + a.skip(1) =~= a);
    }
}

proof fn lemma_no_cut(s: Seq<char>, c: char)
    requires
        !s.contains(c),
    ensures
        before_first(s, c) == s,
        behind_first(s, c) == Seq::<char>::empty(),
    decreases s.len(),
{
    if s.len() > 0 {
        assert(s.contains(s[0]));
        assert forall|x: char| s.skip(1).contains(x) implies s.contains(x) by {
            let i = choose|i: int| 0 <= i < s.skip(1).len() && s.skip(1)[i] == x;
            assert(s[i + 1] == x);
        }
        lemma_no_cut(s.skip(1), c);
        assert(seq![s[0]] + s.skip(1) =~= s);
    } else {
        assert(before_first(s, c) =~= s);
    }
}

/// The value of the first pair with that name.
pub open spec fn first_value(pairs: Seq<Seq<char>>, name: Seq<char>) -> Option<Seq<char>>
    decreases pairs.len(),
{
    if pairs.len() == 0 {
        None
    } else if before_first(trim(pairs[0]), '=') == name {
        Some(behind_first(trim(pairs[0]), '='))
    } else {
        first_value(pairs.skip(1), name)
    }
}

/// The value of a cookie out of the `Cookie` headers of a request.
pub fn cookie_value(headers: &Vec<Vec<u8>>, name: &str) -> (r: Option<String>)
    ensures
        crate::kv::option_view(r) == first_value(cookie_pairs(headers@), name@),
{
    let mut pairs: Vec<String> = Vec::new();
    let mut i: usize = 0;
    assert(views(pairs@) =~= cookie_pairs(headers@.take(0)));
    while i < headers.len()
        invariant
            i <= headers@.len(),
            views(pairs@) == cookie_pairs(headers@.take(i as int)),
        decreases headers.len() - i,
    {
        assert(headers@.take(i + 1).drop_last() =~= headers@.take(i as int));
        match header_str(headers[i].as_slice()) {
            Some(t) => append_lines(&mut pairs, split_text(t.as_str(), ';')),
            None => {},
        }
        i = i + 1;
    }
    assert(headers@.take(headers@.len() as int) =~= headers@);
    let ghost all = views(pairs@);
    let mut k: usize = 0;
    assert(all.skip(0) =~= all);
    while k < pairs.len()
        invariant
            k <= pairs@.len(),
            all == views(pairs@),
            all == cookie_pairs(headers@),
            first_value(all, name@) == first_value(all.skip(k as int), name@),
        decreases pairs.len() - k,
    {
        assert(all.skip(k as int).skip(1) =~= all.skip(k + 1));
        assert(all.skip(k as int)[0] == pairs@[k as int]@);
        let pair = trimmed(pairs[k].as_str());
        match split_once(pair.as_str(), '=') {
            Some((a, b)) => {
                proof {
                    lemma_cut(a@, '=', b@);
                }
                if same(a.as_str(), name) {
                    return Some(b);
                }
            },
            None => {
                proof {
                    lemma_no_cut(pair@, '=');
                }
                if same(pair.as_str(), name) {
                    return Some(String::new());
                }
            },
        }
        k = k + 1;
    }
    None
}

// ---------------------------------------------------------------------------
// Writing
// ---------------------------------------------------------------------------

/// The text that sets a cookie.
pub open spec fn cookie_text(
    name: Seq<char>,
    value: Seq<char>,
    path: Seq<char>,
    max_age_secs: int,
    secure: bool,
) -> Seq<char> {
    name + "="@ + value + "; Path="@ + path + "; Max-Age="@ + dec_int(max_age_secs) + "; HttpOnly; SameSite=Strict"@ + (
    if secure {
        "; Secure"@
    } else {
        ""@
    })
}

/// The text that sets a cookie.
pub fn build_cookie(name: &str, value: &str, path: &str, max_age_secs: i64, secure: bool) -> (r: String)
    ensures
        r@ == cookie_text(name@, value@, path@, max_age_secs as int, secure),
{
    let age = fmt_i64(max_age_secs);
    let end = if secure {
        "; Secure"
    } else {
        ""
    };
    let head = cat5(name, "=", value, "; Path=", path);
    cat5(head.as_str(), "; Max-Age=", age.as_str(), "; HttpOnly; SameSite=Strict", end)
}

/// The texts that can be header values, in order.
pub open spec fn header_values(l: Seq<Seq<char>>) -> Seq<Seq<char>>
    decreases l.len(),
{
    if l.len() == 0 {
        Seq::<Seq<char>>::empty()
    } else if is_header_value(l.last()) {
        header_values(l.drop_last()).push(l.last())
    } else {
        header_values(l.drop_last())
    }
}

fn two_headers(a: String, b: String) -> (r: Vec<String>)
    ensures
        views(r@) == header_values(Seq::<Seq<char>>::empty().push(a@).push(b@)),
{
    let ghost l1 = Seq::<Seq<char>>::empty().push(a@);
    let ghost l2 = l1.push(b@);
    let mut r: Vec<String> = Vec::new();
    proof {
        assert(l2.drop_last() =~= l1);
        assert(l1.drop_last() =~= Seq::<Seq<char>>::empty());
        reveal_with_fuel(header_values, 3);
        assert(views(r@) =~= Seq::<Seq<char>>::empty());
    }
    if header_accepts(a.as_str()) {
        push_line(&mut r, a);
    }
    if header_accepts(b.as_str()) {
        push_line(&mut r, b);
    }
    r
}

/// `n`, or zero where it is negative.
pub open spec fn at_least_zero(n: int) -> int {
    if n > 0 {
        n
    } else {
        0
    }
}

/// The `Set-Cookie` values that install the tokens of a new session. A text
/// that cannot be a header value is left out.
pub fn session_cookies(tokens: &TokenPair, settings: &AuthSettings, secure: bool) -> (r: Vec<String>)
    requires
        settings.access_token_expiry_mins * 60 <= i64::MAX,
        settings.refresh_token_expiry_days * 86_400 <= i64::MAX,
    ensures
        views(r@) == header_values(
            Seq::<Seq<char>>::empty().push(
                cookie_text(
                    ACCESS_COOKIE@,
                    tokens.access_token@,
                    "/"@,
                    at_least_zero(settings.access_token_expiry_mins as int) * 60,
                    secure,
                ),
            ).push(
                cookie_text(
                    REFRESH_COOKIE@,
                    tokens.refresh_token@,
                    REFRESH_PATH@,
                    at_least_zero(settings.refresh_token_expiry_days as int) * 86_400,
                    secure,
                ),
            ),
        ),
{
    let access_secs: i64 = if settings.access_token_expiry_mins > 0 {
        settings.access_token_expiry_mins * 60
    } else {
        0
    };
    let refresh_secs: i64 = if settings.refresh_token_expiry_days > 0 {
        settings.refresh_token_expiry_days * 86_400
    } else {
        0
    };
    let access = build_cookie(ACCESS_COOKIE, tokens.access_token.as_str(), "/", access_secs, secure);
    let refresh = build_cookie(REFRESH_COOKIE, tokens.refresh_token.as_str(), REFRESH_PATH, refresh_secs, secure);
    two_headers(access, refresh)
}

/// The `Set-Cookie` values that end a session.
pub fn clear_cookies(secure: bool) -> (r: Vec<String>)
    ensures
        views(r@) == header_values(
            Seq::<Seq<char>>::empty().push(cookie_text(ACCESS_COOKIE@, ""@, "/"@, 0, secure)).push(
                cookie_text(REFRESH_COOKIE@, ""@, REFRESH_PATH@, 0, secure),
            ),
        ),
{
    let access = build_cookie(ACCESS_COOKIE, "", "/", 0, secure);
    let refresh = build_cookie(REFRESH_COOKIE, "", REFRESH_PATH, 0, secure);
    two_headers(access, refresh)
}

/// Every cookie is out of the reach of scripts and of other sites, and goes
/// over an encrypted connection alone exactly where there is one.
pub proof fn cookies_are_protected(name: Seq<char>, value: Seq<char>, path: Seq<char>, age: int, secure: bool)
    ensures
        has_text(cookie_text(name, value, path, age, secure), "; HttpOnly; SameSite=Strict"@),
        secure <==> has_suffix(cookie_text(name, value, path, age, secure), "; Secure"@),
{
    let c = cookie_text(name, value, path, age, secure);
    let flags = "; HttpOnly; SameSite=Strict"@;
    let head = name + "="@ + value + "; Path="@ + path + "; Max-Age="@ + dec_int(age);
    let end = if secure {
        "; Secure"@
    } else {
        ""@
    };
    assert(c =~= head + flags + end);
    assert(c.subrange(head.len() as int, (head.len() + flags.len()) as int) =~= flags);
    assert(occurs_at(c, flags, head.len() as int));
    if secure {
        assert(c.subrange(c.len() - end.len(), c.len() as int) =~= end);
    } else {
        reveal_strlit("; HttpOnly; SameSite=Strict");
        reveal_strlit("; Secure");
        reveal_strlit("");
        assert(c.last() == 't');
        assert("; Secure"@.last() == 'e');
        if has_suffix(c, "; Secure"@) {
            let n = "; Secure"@.len() as int;
            assert(c.subrange(c.len() - n, c.len() as int).last() == c.last());
        }
    }
}

/// A header is a text where each byte is a visible one or a tab, and then each byte is the
/// character of the same number.
pub proof fn header_values_are_visible(bytes: Seq<u8>, i: int)
    ensures
        header_text(Seq::<u8>::empty()) == Some(Seq::<char>::empty()),
        0 <= i < bytes.len() && (bytes[i] < 32 && bytes[i] != 9 || bytes[i] >= 127) ==> header_text(bytes) is None,
        (forall|k: int| 0 <= k < bytes.len() ==> 32 <= (#[trigger] bytes[k]) < 127 || bytes[k] == 9)
            ==> header_text(bytes) is Some,
        header_text(bytes) matches Some(t) ==> t.len() == bytes.len() && (0 <= i < bytes.len()
            ==> t[i] == bytes[i] as char),
{
    let e = Seq::<u8>::empty();
    assert(e.map_values(|b: u8| b as char) =~= Seq::<char>::empty());
    if 0 <= i < bytes.len() && (bytes[i] < 32 && bytes[i] != 9 || bytes[i] >= 127) {
        assert(!is_visible(bytes[i]));
    }
    assert forall|k: int| 0 <= k < bytes.len() && (32 <= bytes[k] < 127
        || bytes[k] == 9) implies is_visible(#[trigger] bytes[k]) by {
    }
}

/// The cookies of several headers are those of each, in order.
pub proof fn cookies_of_all_headers_count(a: Seq<Vec<u8>>, b: Seq<Vec<u8>>)
    ensures
        cookie_pairs(Seq::<Vec<u8>>::empty()) == Seq::<Seq<char>>::empty(),
        cookie_pairs(a + b) == cookie_pairs(a) + cookie_pairs(b),
    decreases b.len(),
{
    if b.len() == 0 {
        assert(a + b =~= a);
        assert(cookie_pairs(a) + cookie_pairs(b) =~= cookie_pairs(a));
    } else {
        assert((a + b).drop_last() =~= a + b.drop_last());
        cookies_of_all_headers_count(a, b.drop_last());
        assert(cookie_pairs(a + b) =~= cookie_pairs(a) + cookie_pairs(b));
    }
}

/// The cookies of a header stand between its semicolons; a header that is no text has none.
pub proof fn cookies_stand_between_semicolons(h: Vec<u8>)
    ensures
        header_text(h@) is None ==> cookie_pairs(Seq::<Vec<u8>>::empty().push(h)).len() == 0,
        header_text(h@) matches Some(t) ==> cookie_pairs(Seq::<Vec<u8>>::empty().push(h)) == split(t, ';'),
{
    reveal_with_fuel(cookie_pairs, 2);
    assert(Seq::<Vec<u8>>::empty().push(h).drop_last() =~= Seq::<Vec<u8>>::empty());
}

/// A text is cut at the first place where the character stands.
pub proof fn text_is_cut_at_the_first(a: Seq<char>, b: Seq<char>, c: char)
    requires
        !a.contains(c),
    ensures
        before_first(a, c) == a,
        behind_first(a, c).len() == 0,
        before_first(a + seq![c] + b, c) == a,
        behind_first(a + seq![c] + b, c) == b,
    decreases a.len(),
{
    let s = a + seq![c] + b;
    if a.len() == 0 {
        assert(s[0] == c);
        assert(s.skip(1) =~= b);
        assert(before_first(s, c) =~= a);
    } else {
        assert(a.contains(a[0]));
        assert forall|k: int| 0 <= k < a.skip(1).len() implies a.skip(1)[k] != c by {
            assert(a.contains(a[k + 1]));
        }
        text_is_cut_at_the_first(a.skip(1), b, c);
        assert(s[0] == a[0]);
        assert(s.skip(1) =~= a.skip(1) + seq![c] + b);
        assert(seq![a[0]] + a.skip(1) =~= a);
    }
}

/// Of several cookies with a name the first counts, and its value is all that stands behind
/// the first equals sign; cookies of other names do not matter.
pub proof fn first_cookie_of_the_name_counts(a: Seq<Seq<char>>, b: Seq<Seq<char>>, name: Seq<char>, pair: Seq<char>,
    n: Seq<char>, value: Seq<char>)
    ensures
        first_value(Seq::<Seq<char>>::empty(), name) is None,
        first_value(a, name) is Some ==> first_value(a + b, name) == first_value(a, name),
        first_value(a, name) is None ==> first_value(a + b, name) == first_value(b, name),
        trim(pair) == n + seq!['='] + value && !n.contains('=')
            ==> first_value(seq![pair], name) == (if n == name { Some(value) } else { None }),
    decreases a.len(),
{
    reveal_with_fuel(first_value, 2);
    assert(seq![pair].skip(1) =~= Seq::<Seq<char>>::empty());
    if !n.contains('=') {
        text_is_cut_at_the_first(n, value, '=');
    }
    if a.len() == 0 {
        assert(a + b =~= b);
    } else {
        assert((a + b)[0] == a[0]);
        assert((a + b).skip(1) =~= a.skip(1) + b);
        first_cookie_of_the_name_counts(a.skip(1), b, name, pair, n, value);
    }
}

/// A cookie starts with its name and value, then says the path it goes to and how long it is
/// kept.
pub proof fn cookie_says_its_parts(name: Seq<char>, value: Seq<char>, path: Seq<char>, age: int, secure: bool)
    ensures
        has_prefix(cookie_text(name, value, path, age, secure),
            name + seq!['='] + value + "; Path="@ + path + "; Max-Age="@ + dec_int(age) + "; "@),
        has_suffix(cookie_text(name, value, path, age, false), "; SameSite=Strict"@),
        cookie_text(name, value, path, age, true) == cookie_text(name, value, path, age, false) + "; Secure"@,
{
    reveal_strlit("=");
    reveal_strlit("");
    reveal_strlit("; ");
    reveal_strlit("; HttpOnly; SameSite=Strict");
    reveal_strlit("; SameSite=Strict");
    assert("="@ =~= seq!['=']);
    let c = cookie_text(name, value, path, age, secure);
    let head = name + "="@ + value + "; Path="@ + path + "; Max-Age="@ + dec_int(age);
    let end = if secure {
        "; Secure"@
    } else {
        ""@
    };
    let flags = "; HttpOnly; SameSite=Strict"@;
    assert(c == head + flags + end);
    assert(flags =~= "; "@ + flags.skip(2));
    assert(c =~= (head + "; "@) + (flags.skip(2) + end));
    assert(c.take((head + "; "@).len() as int) =~= head + "; "@);
    let d = cookie_text(name, value, path, age, false);
    let n = "; SameSite=Strict"@.len() as int;
    assert(d =~= head + flags);
    assert(flags.skip(flags.len() - n) =~= "; SameSite=Strict"@);
    assert(d.subrange(d.len() - n, d.len() as int) =~= "; SameSite=Strict"@);
    assert(cookie_text(name, value, path, age, true) =~= d + "; Secure"@);
}

/// The values that can stand in a header are kept in order.
pub proof fn header_values_stay_in_order(a: Seq<Seq<char>>, b: Seq<Seq<char>>)
    ensures
        header_values(Seq::<Seq<char>>::empty()) == Seq::<Seq<char>>::empty(),
        header_values(a + b) == header_values(a) + header_values(b),
    decreases b.len(),
{
    if b.len() == 0 {
        assert(a + b =~= a);
        assert(header_values(a) + header_values(b) =~= header_values(a));
    } else {
        assert((a + b).drop_last() =~= a + b.drop_last());
        header_values_stay_in_order(a, b.drop_last());
        assert(header_values(a + b) =~= header_values(a) + header_values(b));
    }
}

/// A value with a control character other than the tab is dropped, and any other is kept.
pub proof fn unprintable_values_are_dropped(s: Seq<char>, i: int)
    ensures
        0 <= i < s.len() && (s[i] == '\x7f' || s[i] < ' ' && s[i] != '\t')
            ==> header_values(Seq::<Seq<char>>::empty().push(s)).len() == 0,
        (forall|k: int| 0 <= k < s.len() ==> ' ' <= (#[trigger] s[k]) && s[k] != '\x7f')
            ==> header_values(Seq::<Seq<char>>::empty().push(s)) == seq![s],
        (forall|k: int| 0 <= k < s.len() ==> (#[trigger] s[k]) == '\t')
            ==> header_values(Seq::<Seq<char>>::empty().push(s)) == seq![s],
{
    reveal_with_fuel(header_values, 2);
    assert(Seq::<Seq<char>>::empty().push(s).drop_last() =~= Seq::<Seq<char>>::empty());
    if 0 <= i < s.len() && (s[i] == '\x7f' || s[i] < ' ' && s[i] != '\t') {
        assert(!is_header_char(s[i]));
    }
}

/// An age is never below zero, and one above is kept.
pub proof fn ages_are_not_negative(n: int)
    ensures
        at_least_zero(n) >= 0,
        n >= 0 ==> at_least_zero(n) == n,
        n < 0 ==> at_least_zero(n) == 0,
{
}

proof fn lemma_two_values(a: Seq<char>, b: Seq<char>)
    requires
        is_header_value(a),
        is_header_value(b),
    ensures
        header_values(Seq::<Seq<char>>::empty().push(a).push(b)) == seq![a, b],
{
    reveal_with_fuel(header_values, 3);
    let e = Seq::<Seq<char>>::empty();
    assert(e.push(a).push(b).drop_last() =~= e.push(a));
    assert(e.push(a).drop_last() =~= e);
}

/// A session has two cookies: the access token goes everywhere and is kept for its minutes, and
/// the refresh token goes to the authentication alone and is kept for its days.
pub proof fn session_has_two_cookies(tokens: &TokenPair, settings: &AuthSettings, secure: bool, r: Vec<String>)
    requires
        call_ensures(session_cookies, (tokens, settings, secure), r),
    ensures
        ({ let a = cookie_text("aifw_at"@, tokens.access_token@, "/"@, settings.access_token_expiry_mins * 60,
            secure); let b = cookie_text("aifw_rt"@, tokens.refresh_token@, "/api/v1/auth"@,
            settings.refresh_token_expiry_days * 86_400, secure); settings.access_token_expiry_mins >= 0
            && settings.refresh_token_expiry_days >= 0 && is_header_value(a) && is_header_value(b)
            ==> views(r@) == seq![a, b] }),
{
    let a = cookie_text("aifw_at"@, tokens.access_token@, "/"@, settings.access_token_expiry_mins * 60, secure);
    let b = cookie_text("aifw_rt"@, tokens.refresh_token@, "/api/v1/auth"@,
        settings.refresh_token_expiry_days * 86_400, secure);
    if settings.access_token_expiry_mins >= 0 && settings.refresh_token_expiry_days >= 0 && is_header_value(a)
        && is_header_value(b) {
        lemma_two_values(a, b);
        assert(views(r@) == header_values(Seq::<Seq<char>>::empty().push(a).push(b)));
    }
}

/// Clearing a session sets both cookies to nothing, where they were set, and keeps them no
/// longer.
pub proof fn cleared_session_has_no_tokens(secure: bool, r: Vec<String>)
    requires
        call_ensures(clear_cookies, (secure,), r),
    ensures
        ({ let a = cookie_text("aifw_at"@, Seq::<char>::empty(), "/"@, 0, secure); let b = cookie_text("aifw_rt"@,
            Seq::<char>::empty(), "/api/v1/auth"@, 0, secure); is_header_value(a) && is_header_value(b)
            ==> views(r@) == seq![a, b] }),
{
    reveal_strlit("");
    assert(""@ =~= Seq::<char>::empty());
    let a = cookie_text("aifw_at"@, Seq::<char>::empty(), "/"@, 0, secure);
    let b = cookie_text("aifw_rt"@, Seq::<char>::empty(), "/api/v1/auth"@, 0, secure);
    if is_header_value(a) && is_header_value(b) {
        lemma_two_values(a, b);
        assert(views(r@) == header_values(Seq::<Seq<char>>::empty().push(a).push(b)));
    }
}

} // verus!
