//! Decimal numbers: how an integer is written, and which texts are integers or
//! fractions.

use vstd::prelude::*;
use vstd::string::*;

use crate::text::{
    cat2, chars_of, join, lowercase, lowercase_text, same, split, split_of_join, split_text, text_between, views,
};

verus! {

/// The decimal digit for `d`.
pub open spec fn digit(d: nat) -> char {
    (('0' as u32) + d) as char
}

/// `c` is a decimal digit.
pub open spec fn is_digit(c: char) -> bool {
    '0' <= c <= '9'
}

/// The number that a digit stands for.
pub open spec fn digit_value(c: char) -> nat {
    (c as nat - '0' as nat) as nat
}

/// The decimal form of `n`, without leading zeros.
pub open spec fn dec(n: nat) -> Seq<char>
    decreases n,
{
    if n < 10 {
        seq![digit(n)]
    } else {
        dec(n / 10).push(digit(n % 10))
    }
}

/// The decimal form of an integer, with a minus sign in front of a negative one.
pub open spec fn dec_int(n: int) -> Seq<char> {
    if n < 0 {
        seq!['-'] + dec((-n) as nat)
    } else {
        dec(n as nat)
    }
}

/// The number that a sequence of digits stands for.
pub open spec fn value(s: Seq<char>) -> nat
    decreases s.len(),
{
    if s.len() == 0 {
        0
    } else {
        value(s.drop_last()) * 10 + digit_value(s.last())
    }
}

/// `s` is one digit or more and nothing else.
pub open spec fn is_digits(s: Seq<char>) -> bool {
    s.len() > 0 && forall|i: int| 0 <= i < s.len() ==> is_digit(#[trigger] s[i])
}

/// `s` without one leading plus sign.
pub open spec fn unsigned_part(s: Seq<char>) -> Seq<char> {
    if s.len() > 0 && s[0] == '+' {
        s.skip(1)
    } else {
        s
    }
}

/// The number that `s` writes, if it writes one of at most `max`: an optional
/// plus sign, then digits.
pub open spec fn parsed(s: Seq<char>, max: nat) -> Option<nat> {
    let t = unsigned_part(s);
    if is_digits(t) && value(t) <= max {
        Some(value(t))
    } else {
        None
    }
}

/// What `dec` writes are digits, and they stand for the number written.
pub proof fn value_of_dec(n: nat)
    ensures
        is_digits(dec(n)),
        value(dec(n)) == n,
    decreases n,
{
    if n < 10 {
        assert(value(Seq::<char>::empty()) == 0);
        assert(seq![digit(n)].drop_last() =~= Seq::<char>::empty());
    } else {
        value_of_dec(n / 10);
        assert(dec(n).drop_last() =~= dec(n / 10));
    }
}

/// A number that was written reads back as itself.
pub proof fn parsed_of_dec(n: nat, max: nat)
    requires
        n <= max,
    ensures
        parsed(dec(n), max) == Some(n),
{
    value_of_dec(n);
    assert(is_digit(dec(n)[0]));
    assert(unsigned_part(dec(n)) == dec(n));
}

fn push_dec(s: &mut String, n: u64)
    ensures
        final(s)@ == old(s)@ + dec(n as nat),
    decreases n,
{
    let ghost before = s@;
    if n >= 10 {
        push_dec(s, n / 10);
    }
    let d: u8 = (n % 10) as u8;
    s.push((48u8 + d) as char);
    proof {
        if n < 10 {
            assert(s@ =~= before + dec(n as nat));
        } else {
            assert(s@ =~= before + dec(n as nat));
        }
    }
}

/// The decimal form of `n`.
pub fn fmt_u64(n: u64) -> (s: String)
    ensures
        s@ == dec(n as nat),
{
    let mut s = String::new();
    push_dec(&mut s, n);
    assert(s@ =~= dec(n as nat));
    s
}

/// The decimal form of `n`.
pub fn fmt_usize(n: usize) -> (s: String)
    ensures
        s@ == dec(n as nat),
{
    fmt_u64(n as u64)
}

/// The decimal form of `n`.
pub fn fmt_i64(n: i64) -> (s: String)
    ensures
        s@ == dec_int(n as int),
{
    if n < 0 {
        let mut s = String::new();
        s.push('-');
        let m: u64 = if n == i64::MIN {
            9223372036854775808u64
        } else {
            (-n) as u64
        };
        push_dec(&mut s, m);
        assert(s@ =~= seq!['-'] + dec((-n) as nat));
        s
    } else {
        fmt_u64(n as u64)
    }
}

proof fn lemma_value_grows(s: Seq<char>, i: int)
    requires
        0 <= i <= s.len(),
    ensures
        value(s.take(i)) <= value(s),
    decreases s.len() - i,
{
    if i == s.len() {
        assert(s.take(i) =~= s);
    } else {
        lemma_value_grows(s, i + 1);
        assert(s.take(i + 1).drop_last() =~= s.take(i));
    }
}

fn parse_digits(v: &Vec<char>, from: usize, max: u64) -> (r: Option<u64>)
    requires
        from <= v@.len(),
    ensures
        ({
            let t = v@.skip(from as int);
            match r {
                Some(n) => is_digits(t) && value(t) == n && n <= max,
                None => !(is_digits(t) && value(t) <= max),
            }
        }),
{
    let ghost t = v@.skip(from as int);
    if from == v.len() {
        return None;
    }
    let mut n: u64 = 0;
    let mut i: usize = from;
    assert(t.take(0) =~= Seq::<char>::empty());
    while i < v.len()
        invariant
            from <= i <= v@.len(),
            t == v@.skip(from as int),
            n == value(t.take(i - from)),
            n <= max,
            forall|k: int| 0 <= k < i - from ==> is_digit(#[trigger] t[k]),
        decreases v.len() - i,
    {
        let c = v[i];
        assert(t[i - from] == c);
        if !('0' <= c && c <= '9') {
            return None;
        }
        let d: u64 = (c as u8 - 48) as u64;
        proof {
            assert(t.take(i - from + 1).drop_last() =~= t.take(i - from));
            assert(t.take(i - from + 1).last() == c);
            lemma_value_grows(t, i - from + 1);
        }
        if n > max / 10 || d > max - n * 10 {
            return None;
        }
        n = n * 10 + d;
        i = i + 1;
    }
    assert(t.take(v@.len() - from) =~= t);
    Some(n)
}

/// The unsigned number of at most `max` that `s` writes.
pub fn parse_max(s: &str, max: u64) -> (r: Option<u64>)
    ensures
        match r {
            Some(n) => parsed(s@, max as nat) == Some(n as nat),
            None => parsed(s@, max as nat) is None,
        },
{
    let v = chars_of(s);
    if v.len() > 0 && v[0] == '+' {
        parse_digits(&v, 1, max)
    } else {
        assert(v@.skip(0) =~= v@);
        parse_digits(&v, 0, max)
    }
}

/// `str::parse::<u8>`.
pub fn parse_u8(s: &str) -> (r: Option<u8>)
    ensures
        match r {
            Some(n) => parsed(s@, 255) == Some(n as nat),
            None => parsed(s@, 255) is None,
        },
{
    match parse_max(s, 255) {
        Some(n) => Some(n as u8),
        None => None,
    }
}

/// `str::parse::<u16>`.
pub fn parse_u16(s: &str) -> (r: Option<u16>)
    ensures
        match r {
            Some(n) => parsed(s@, 65535) == Some(n as nat),
            None => parsed(s@, 65535) is None,
        },
{
    match parse_max(s, 65535) {
        Some(n) => Some(n as u16),
        None => None,
    }
}

/// `str::parse::<u32>`.
pub fn parse_u32(s: &str) -> (r: Option<u32>)
    ensures
        match r {
            Some(n) => parsed(s@, u32::MAX as nat) == Some(n as nat),
            None => parsed(s@, u32::MAX as nat) is None,
        },
{
    match parse_max(s, 4294967295) {
        Some(n) => Some(n as u32),
        None => None,
    }
}

/// `str::parse::<u64>`.
pub fn parse_u64(s: &str) -> (r: Option<u64>)
    ensures
        match r {
            Some(n) => parsed(s@, u64::MAX as nat) == Some(n as nat),
            None => parsed(s@, u64::MAX as nat) is None,
        },
{
    parse_max(s, 18446744073709551615)
}

// ---------------------------------------------------------------------------
// Fractions
// ---------------------------------------------------------------------------

/// `s` without one leading sign.
pub open spec fn after_sign(s: Seq<char>) -> Seq<char> {
    if s.len() > 0 && (s[0] == '+' || s[0] == '-') {
        s.skip(1)
    } else {
        s
    }
}

/// `s` is digits with at most one point before, between or behind them.
pub open spec fn is_pointed(s: Seq<char>) -> bool {
    let p = split(s, '.');
    (p.len() == 1 && is_digits(p[0])) || (p.len() == 2 && is_digits(p[0] + p[1]))
}

/// `s` is digits with at most one point and, where an `e` stands behind them, an
/// exponent.
pub open spec fn is_scaled(s: Seq<char>) -> bool {
    let p = split(s, 'e');
    (p.len() == 1 && is_pointed(p[0])) || (p.len() == 2 && is_pointed(p[0]) && is_digits(after_sign(p[1])))
}

/// `s` writes a fraction, an infinity or no number at all, in letters of either
/// case: what `str::parse` reads as a floating-point number.
pub open spec fn is_decimal(s: Seq<char>) -> bool {
    let t = after_sign(lowercase(s));
    t == "inf"@ || t == "infinity"@ || t == "nan"@ || is_scaled(t)
}

/// The empty text writes no fraction.
pub proof fn empty_is_no_decimal()
    ensures
        !is_decimal(Seq::<char>::empty()),
{
    let e = Seq::<char>::empty();
    assert(lowercase(e) =~= e);
    reveal_strlit("inf");
    reveal_strlit("infinity");
    reveal_strlit("nan");
    assert(split(e, 'e')[0].len() == 0);
    assert(split(split(e, 'e')[0], '.')[0].len() == 0);
}

fn digits_ok(s: &str) -> (r: bool)
    ensures
        r == is_digits(s@),
{
    let v = chars_of(s);
    let mut i: usize = 0;
    while i < v.len()
        invariant
            i <= v@.len(),
            v@ == s@,
            forall|k: int| 0 <= k < i ==> is_digit(#[trigger] v@[k]),
        decreases v.len() - i,
    {
        if !('0' <= v[i] && v[i] <= '9') {
            assert(!is_digit(s@[i as int]));
            return false;
        }
        i = i + 1;
    }
    v.len() > 0
}

fn without_sign(s: &str) -> (r: String)
    ensures
        r@ == after_sign(s@),
{
    let v = chars_of(s);
    let from: usize = if v.len() > 0 && (v[0] == '+' || v[0] == '-') {
        1
    } else {
        0
    };
    let r = text_between(&v, from, v.len());
    assert(r@ =~= s@.skip(from as int));
    r
}

fn pointed_ok(s: &str) -> (r: bool)
    ensures
        r == is_pointed(s@),
{
    let p = split_text(s, '.');
    assert(views(p@).len() == p@.len());
    if p.len() == 1 {
        assert(views(p@)[0] == p@[0]@);
        digits_ok(p[0].as_str())
    } else if p.len() == 2 {
        assert(views(p@)[0] == p@[0]@ && views(p@)[1] == p@[1]@);
        let both = cat2(p[0].as_str(), p[1].as_str());
        digits_ok(both.as_str())
    } else {
        false
    }
}

fn scaled_ok(s: &str) -> (r: bool)
    ensures
        r == is_scaled(s@),
{
    let p = split_text(s, 'e');
    assert(views(p@).len() == p@.len());
    if p.len() == 1 {
        assert(views(p@)[0] == p@[0]@);
        pointed_ok(p[0].as_str())
    } else if p.len() == 2 {
        assert(views(p@)[0] == p@[0]@ && views(p@)[1] == p@[1]@);
        let exponent = without_sign(p[1].as_str());
        pointed_ok(p[0].as_str()) && digits_ok(exponent.as_str())
    } else {
        false
    }
}

/// Whether a text writes a fraction.
pub fn decimal_ok(s: &str) -> (r: bool)
    ensures
        r == is_decimal(s@),
{
    let low = lowercase_text(s);
    let t = without_sign(low.as_str());
    same(t.as_str(), "inf") || same(t.as_str(), "infinity") || same(t.as_str(), "nan") || scaled_ok(t.as_str())
}

// ---------------------------------------------------------------------------
// Laws
// ---------------------------------------------------------------------------

/// A written number starts with a zero only where it is zero, and a negative one has a minus in
/// front.
pub proof fn numbers_are_written_without_zeros_in_front(n: nat)
    ensures
        n > 0 ==> dec(n)[0] != '0',
        dec(n).len() > 0,
        dec(0) == seq!['0'],
        dec_int(n as int) == dec(n),
        n > 0 ==> dec_int(-(n as int)) == seq!['-'] + dec(n),
    decreases n,
{
    if n >= 10 {
        numbers_are_written_without_zeros_in_front(n / 10);
        assert(dec(n)[0] == dec(n / 10)[0]);
    }
}

/// Each digit counts its own value, and one more digit behind counts the others ten times.
pub proof fn digits_count_by_ten(s: Seq<char>, d: char)
    ensures
        value(Seq::<char>::empty()) == 0,
        '0' <= d <= '9' ==> value(s.push(d)) == 10 * value(s) + (d as int - '0' as int),
{
    assert(s.push(d).drop_last() =~= s);
}

/// Digits are read as their value up to the largest that fits, with a plus in front or not;
/// anything else is no number.
pub proof fn numbers_are_read(s: Seq<char>, max: nat, i: int)
    ensures
        is_digits(s) && value(s) <= max ==> parsed(s, max) == Some(value(s)),
        is_digits(s) && value(s) <= max ==> parsed(seq!['+'] + s, max) == Some(value(s)),
        is_digits(s) && value(s) > max ==> parsed(s, max) is None,
        s.len() == 0 ==> parsed(s, max) is None,
        0 < i < s.len() && !('0' <= s[i] <= '9') ==> parsed(s, max) is None,
        s.len() > 0 && s[0] != '+' && !('0' <= s[0] <= '9') ==> parsed(s, max) is None,
{
    let p = seq!['+'] + s;
    assert(p.skip(1) =~= s);
    if is_digits(s) {
        assert(is_digit(s[0]));
    }
    if s.len() > 0 {
        assert(s[0] != '+' ==> unsigned_part(s) == s);
        if s[0] == '+' && 0 < i < s.len() {
            assert(s.skip(1)[i - 1] == s[i]);
        }
    }
}

proof fn lemma_plain(s: Seq<char>)
    requires
        forall|k: int| 0 <= k < s.len() ==> is_digit(#[trigger] s[k]) || s[k] == '.',
    ensures
        lowercase(s) == s,
        !s.contains('e'),
{
    assert(lowercase(s) =~= s);
    if s.contains('e') {
        let k = choose|k: int| 0 <= k < s.len() && s[k] == 'e';
        assert(is_digit(s[k]) || s[k] == '.');
    }
}

/// Digits are a decimal, and so are digits around a point.
pub proof fn decimals_have_digits_around_a_point(a: Seq<char>, b: Seq<char>)
    requires
        is_digits(a),
        is_digits(b),
    ensures
        is_decimal(a),
        is_decimal(a + seq!['.'] + b),
{
    let s = a + seq!['.'] + b;
    assert forall|k: int| 0 <= k < s.len() implies is_digit(#[trigger] s[k]) || s[k] == '.' by {
        if k < a.len() {
            assert(s[k] == a[k]);
        } else if k > a.len() {
            assert(s[k] == b[k - a.len() - 1]);
        }
    }
    lemma_plain(a);
    lemma_plain(s);
    assert(is_digit(a[0]));
    assert(s[0] == a[0]);
    assert(!a.contains('.')) by {
        if a.contains('.') {
            let k = choose|k: int| 0 <= k < a.len() && a[k] == '.';
            assert(is_digit(a[k]));
        }
    }
    assert(!b.contains('.')) by {
        if b.contains('.') {
            let k = choose|k: int| 0 <= k < b.len() && b[k] == '.';
            assert(is_digit(b[k]));
        }
    }
    split_of_join(seq![a], 'e');
    split_of_join(seq![s], 'e');
    split_of_join(seq![a], '.');
    assert(join(seq![a], seq!['e']) == a);
    assert(join(seq![s], seq!['e']) == s);
    assert(join(seq![a], seq!['.']) == a);
    let l = seq![a, b];
    assert(l.drop_last() =~= seq![a]);
    reveal_with_fuel(join, 2);
    assert(join(l, seq!['.']) == s);
    split_of_join(l, '.');
    assert(is_digits(a + b)) by {
        assert forall|k: int| 0 <= k < (a + b).len() implies is_digit(#[trigger] (a + b)[k]) by {
            if k < a.len() {
                assert((a + b)[k] == a[k]);
            } else {
                assert((a + b)[k] == b[k - a.len()]);
            }
        }
    }
}

} // verus!
