//! Key/value rows, the form in which settings are stored in a table.

use vstd::prelude::*;

use crate::number::{dec, decimal_ok, fmt_u64, is_decimal, parse_max, parsed, parsed_of_dec};
use crate::text::{
    is_trimmed, join, join_text, same, split, split_of_join, split_pieces, split_text, trim, trim_adds_nothing,
    trim_is_idempotent, trimmed, views,
};

verus! {

/// One row of a key/value table.
#[derive(Clone, Debug)]
pub struct KeyValue {
    pub key: String,
    pub value: String,
}

impl View for KeyValue {
    type V = (Seq<char>, Seq<char>);

    open spec fn view(&self) -> (Seq<char>, Seq<char>) {
        (self.key@, self.value@)
    }
}

/// The rows of a table as pairs of texts.
pub open spec fn rows(v: Seq<KeyValue>) -> Seq<(Seq<char>, Seq<char>)> {
    Seq::new(v.len(), |i: int| v[i]@)
}

/// The value of the last row under `key`, if there is one.
#[verifier::opaque]
pub open spec fn lookup(t: Seq<(Seq<char>, Seq<char>)>, key: Seq<char>) -> Option<Seq<char>>
    decreases t.len(),
{
    if t.len() == 0 {
        None
    } else if t.last().0 == key {
        Some(t.last().1)
    } else {
        lookup(t.drop_last(), key)
    }
}

/// The last row decides: a row under another key changes nothing.
pub broadcast proof fn lookup_push(t: Seq<(Seq<char>, Seq<char>)>, row: (Seq<char>, Seq<char>), key: Seq<char>)
    ensures
        #[trigger] lookup(t.push(row), key) == if row.0 == key {
            Some(row.1)
        } else {
            lookup(t, key)
        },
{
    reveal(lookup);
    assert(t.push(row).drop_last() =~= t);
}

/// The value that the last row under `key` holds.
pub fn find<'a>(t: &'a Vec<KeyValue>, key: &str) -> (r: Option<&'a str>)
    ensures
        match r {
            Some(v) => lookup(rows(t@), key@) == Some(v@),
            None => lookup(rows(t@), key@) is None,
        },
{
    let mut i: usize = t.len();
    let ghost all = rows(t@);
    proof {
        reveal(lookup);
        assert(all.take(t@.len() as int) =~= all);
    }
    while i > 0
        invariant
            i <= t@.len(),
            all == rows(t@),
            lookup(all, key@) == lookup(all.take(i as int), key@),
        decreases i,
    {
        proof {
            reveal(lookup);
            assert(all.take(i as int).drop_last() =~= all.take(i - 1));
            assert(all.take(i as int).last() == t@[i - 1]@);
        }
        if same(t[i - 1].key.as_str(), key) {
            return Some(t[i - 1].value.as_str());
        }
        i = i - 1;
    }
    proof {
        reveal(lookup);
    }
    None
}

/// Adds a row at the end.
pub fn put(t: &mut Vec<KeyValue>, key: &str, value: &str)
    ensures
        rows(final(t)@) == rows(old(t)@).push((key@, value@)),
{
    let ghost before = t@;
    t.push(KeyValue { key: key.to_owned(), value: value.to_owned() });
    assert(rows(t@) =~= rows(before).push((key@, value@)));
}

/// The text of a truth value.
pub open spec fn bool_text(b: bool) -> Seq<char> {
    if b {
        "true"@
    } else {
        "false"@
    }
}

/// The text of a truth value.
pub fn bool_str(b: bool) -> (r: &'static str)
    ensures
        r@ == bool_text(b),
{
    if b {
        "true"
    } else {
        "false"
    }
}

/// The two truth values have different texts, and only `true` is written `true`.
pub proof fn bool_text_reads_back(b: bool)
    ensures
        (bool_text(b) == "true"@) == b,
{
    reveal_strlit("true");
    reveal_strlit("false");
    assert("true"@.len() == 4);
    assert("false"@.len() == 5);
}

// ---------------------------------------------------------------------------
// Lists in one value
// ---------------------------------------------------------------------------

/// The entries of a list kept in one text: the pieces between the separators,
/// without surrounding white space, without empty ones.
pub open spec fn items(s: Seq<char>, sep: char) -> Seq<Seq<char>> {
    trimmed_pieces(split(s, sep))
}

/// The pieces without surrounding white space, without empty ones.
pub open spec fn trimmed_pieces(p: Seq<Seq<char>>) -> Seq<Seq<char>>
    decreases p.len(),
{
    if p.len() == 0 {
        Seq::<Seq<char>>::empty()
    } else {
        let init = trimmed_pieces(p.drop_last());
        let last = trim(p.last());
        if last.len() == 0 {
            init
        } else {
            init.push(last)
        }
    }
}

/// The entries of the list that `s` holds.
pub fn items_of(s: &str, sep: char) -> (r: Vec<String>)
    ensures
        views(r@) == items(s@, sep),
{
    let p = split_text(s, sep);
    let ghost all = views(p@);
    let mut r: Vec<String> = Vec::new();
    let mut i: usize = 0;
    assert(all.take(0) =~= Seq::<Seq<char>>::empty());
    assert(views(r@) =~= Seq::<Seq<char>>::empty());
    while i < p.len()
        invariant
            i <= p@.len(),
            all == views(p@),
            views(r@) == trimmed_pieces(all.take(i as int)),
        decreases p.len() - i,
    {
        assert(all.take(i + 1).drop_last() =~= all.take(i as int));
        assert(all.take(i + 1).last() == p@[i as int]@);
        let t = trimmed(p[i].as_str());
        if !t.as_str().is_empty() {
            let ghost before = r@;
            let ghost w = t@;
            r.push(t);
            assert(views(r@) =~= views(before).push(w));
        }
        i = i + 1;
    }
    assert(all.take(p@.len() as int) =~= all);
    r
}

/// The entries of a list with commas.
pub fn split_csv(s: &str) -> (r: Vec<String>)
    ensures
        views(r@) == items(s@, ','),
{
    items_of(s, ',')
}

/// An entry that survives being listed: not empty, no white space around it,
/// no separator in it.
pub open spec fn is_item(s: Seq<char>, sep: char) -> bool {
    s.len() > 0 && is_trimmed(s) && !s.contains(sep)
}

/// Every entry of `l` survives being listed.
pub open spec fn are_items(l: Seq<Seq<char>>, sep: char) -> bool {
    forall|i: int| 0 <= i < l.len() ==> is_item(#[trigger] l[i], sep)
}

proof fn lemma_trimmed_pieces_of_items(l: Seq<Seq<char>>, sep: char)
    requires
        are_items(l, sep),
    ensures
        trimmed_pieces(l) == l,
    decreases l.len(),
{
    if l.len() > 0 {
        let init = l.drop_last();
        assert forall|i: int| 0 <= i < init.len() implies is_item(#[trigger] init[i], sep) by {
            assert(init[i] == l[i]);
        }
        lemma_trimmed_pieces_of_items(init, sep);
        assert(is_item(l[l.len() - 1], sep));
        trim_is_idempotent(l.last());
        assert(init.push(l.last()) =~= l);
    } else {
        assert(trimmed_pieces(l) =~= l);
    }
}

/// A list of entries that was joined into one text reads back as that list.
pub proof fn items_of_join(l: Seq<Seq<char>>, sep: char)
    requires
        are_items(l, sep),
    ensures
        items(join(l, seq![sep]), sep) == l,
{
    if l.len() == 0 {
        let e = Seq::<char>::empty();
        assert(split(e, sep) =~= seq![e]);
        trim_is_idempotent(e);
        assert(trim(e) == e);
        assert(seq![e].drop_last() =~= Seq::<Seq<char>>::empty());
        assert(trimmed_pieces(Seq::<Seq<char>>::empty()) == Seq::<Seq<char>>::empty());
        assert(seq![e].last() == e);
        assert(l =~= Seq::<Seq<char>>::empty());
    } else {
        assert forall|i: int| 0 <= i < l.len() implies !(#[trigger] l[i]).contains(sep) by {
            assert(is_item(l[i], sep));
        }
        split_of_join(l, sep);
        lemma_trimmed_pieces_of_items(l, sep);
    }
}

/// A list with an entry is not written as the empty text.
pub proof fn join_fills(l: Seq<Seq<char>>, sep: char)
    requires
        l.len() > 0,
        are_items(l, sep),
    ensures
        join(l, seq![sep]).len() > 0,
{
    assert(is_item(l[0], sep));
}

/// Every entry of a list that was read survives being listed again: it is not
/// empty, has no white space around it and holds no separator.
pub proof fn items_are_clean(s: Seq<char>, sep: char)
    ensures
        are_items(items(s, sep), sep),
{
    split_pieces(s, sep);
    lemma_pieces_are_clean(split(s, sep), sep);
}

proof fn lemma_pieces_are_clean(p: Seq<Seq<char>>, sep: char)
    requires
        forall|i: int| 0 <= i < p.len() ==> !(#[trigger] p[i]).contains(sep),
    ensures
        are_items(trimmed_pieces(p), sep),
    decreases p.len(),
{
    if p.len() > 0 {
        let rest = p.drop_last();
        assert forall|i: int| 0 <= i < rest.len() implies !(#[trigger] rest[i]).contains(sep) by {
            assert(rest[i] == p[i]);
        }
        lemma_pieces_are_clean(rest, sep);
        trim_is_idempotent(p.last());
        trim_adds_nothing(p.last(), sep);
        assert(!p[p.len() - 1].contains(sep));
        let init = trimmed_pieces(rest);
        assert forall|i: int| 0 <= i < trimmed_pieces(p).len() implies is_item(#[trigger] trimmed_pieces(p)[i], sep) by {
            if i < init.len() {
                assert(trimmed_pieces(p)[i] == init[i]);
            }
        }
    }
}

/// A list that was read reads back as itself once it is written again.
pub proof fn items_read_back(s: Seq<char>, sep: char)
    ensures
        items(join(items(s, sep), seq![sep]), sep) == items(s, sep),
{
    items_are_clean(s, sep);
    items_of_join(items(s, sep), sep);
}

// ---------------------------------------------------------------------------
// Typed settings
// ---------------------------------------------------------------------------

/// The text under `key`, or `or` where there is no row.
pub open spec fn text_at(t: Seq<(Seq<char>, Seq<char>)>, key: Seq<char>, or: Seq<char>) -> Seq<char> {
    match lookup(t, key) {
        Some(v) => v,
        None => or,
    }
}

/// The text under `key`; an empty one counts as no row.
pub open spec fn filled_text_at(t: Seq<(Seq<char>, Seq<char>)>, key: Seq<char>, or: Seq<char>) -> Seq<char> {
    match lookup(t, key) {
        Some(v) => if v.len() > 0 {
            v
        } else {
            or
        },
        None => or,
    }
}

/// The truth value under `key`: only `true` is true.
pub open spec fn flag_at(t: Seq<(Seq<char>, Seq<char>)>, key: Seq<char>, or: bool) -> bool {
    match lookup(t, key) {
        Some(v) => v == "true"@,
        None => or,
    }
}

/// The number under `key`; what is no number of at most `max` reads as `bad`.
pub open spec fn number_at(
    t: Seq<(Seq<char>, Seq<char>)>,
    key: Seq<char>,
    max: nat,
    bad: nat,
    or: nat,
) -> nat {
    match lookup(t, key) {
        Some(v) => match parsed(v, max) {
            Some(n) => n,
            None => bad,
        },
        None => or,
    }
}

/// The fraction under `key`, as the text that writes it; what writes none reads
/// as `bad`.
pub open spec fn decimal_at(
    t: Seq<(Seq<char>, Seq<char>)>,
    key: Seq<char>,
    bad: Seq<char>,
    or: Seq<char>,
) -> Seq<char> {
    match lookup(t, key) {
        Some(v) => if is_decimal(v) {
            v
        } else {
            bad
        },
        None => or,
    }
}

/// The list under `key`.
pub open spec fn list_at(
    t: Seq<(Seq<char>, Seq<char>)>,
    key: Seq<char>,
    sep: char,
    or: Seq<Seq<char>>,
) -> Seq<Seq<char>> {
    match lookup(t, key) {
        Some(v) => items(v, sep),
        None => or,
    }
}

/// A text that may be absent: the empty text is none.
pub open spec fn filled(v: Seq<char>) -> Option<Seq<char>> {
    if v.len() == 0 {
        None
    } else {
        Some(v)
    }
}

/// The optional text under `key`.
pub open spec fn option_at(
    t: Seq<(Seq<char>, Seq<char>)>,
    key: Seq<char>,
    or: Option<Seq<char>>,
) -> Option<Seq<char>> {
    match lookup(t, key) {
        Some(v) => filled(v),
        None => or,
    }
}

/// The optional number under `key`: what is no number of at most `max` is none.
pub open spec fn option_number_at(
    t: Seq<(Seq<char>, Seq<char>)>,
    key: Seq<char>,
    max: nat,
    or: Option<nat>,
) -> Option<nat> {
    match lookup(t, key) {
        Some(v) => parsed(v, max),
        None => or,
    }
}

/// The optional fraction under `key`: what writes no fraction is none.
pub open spec fn option_decimal_at(
    t: Seq<(Seq<char>, Seq<char>)>,
    key: Seq<char>,
    or: Option<Seq<char>>,
) -> Option<Seq<char>> {
    match lookup(t, key) {
        Some(v) => if is_decimal(v) {
            Some(v)
        } else {
            None
        },
        None => or,
    }
}

/// The optional list under `key`: the empty text is none.
pub open spec fn option_list_at(
    t: Seq<(Seq<char>, Seq<char>)>,
    key: Seq<char>,
    sep: char,
    or: Option<Seq<Seq<char>>>,
) -> Option<Seq<Seq<char>>> {
    match lookup(t, key) {
        Some(v) => if v.len() == 0 {
            None
        } else {
            Some(items(v, sep))
        },
        None => or,
    }
}

/// The text of an optional text.
pub open spec fn option_text(v: Option<Seq<char>>) -> Seq<char> {
    match v {
        Some(x) => x,
        None => Seq::<char>::empty(),
    }
}

/// The text of an optional number.
pub open spec fn option_number_text(v: Option<nat>) -> Seq<char> {
    match v {
        Some(n) => dec(n),
        None => Seq::<char>::empty(),
    }
}

/// The text of an optional list.
pub open spec fn option_list_text(v: Option<Seq<Seq<char>>>, sep: char) -> Seq<char> {
    match v {
        Some(l) => join(l, seq![sep]),
        None => Seq::<char>::empty(),
    }
}

/// The text of an optional string.
pub open spec fn option_view(v: Option<String>) -> Option<Seq<char>> {
    match v {
        Some(x) => Some(x@),
        None => None,
    }
}

/// The texts of an optional list of strings.
pub open spec fn option_views(v: Option<Vec<String>>) -> Option<Seq<Seq<char>>> {
    match v {
        Some(x) => Some(views(x@)),
        None => None,
    }
}

pub fn get_text(t: &Vec<KeyValue>, key: &str, or: String) -> (r: String)
    ensures
        r@ == text_at(rows(t@), key@, or@),
{
    match find(t, key) {
        Some(v) => v.to_owned(),
        None => or,
    }
}

pub fn get_filled_text(t: &Vec<KeyValue>, key: &str, or: String) -> (r: String)
    ensures
        r@ == filled_text_at(rows(t@), key@, or@),
{
    match find(t, key) {
        Some(v) => if v.is_empty() {
            or
        } else {
            v.to_owned()
        },
        None => or,
    }
}

pub fn get_flag(t: &Vec<KeyValue>, key: &str, or: bool) -> (r: bool)
    ensures
        r == flag_at(rows(t@), key@, or),
{
    match find(t, key) {
        Some(v) => same(v, "true"),
        None => or,
    }
}

pub fn get_number(t: &Vec<KeyValue>, key: &str, max: u64, bad: u64, or: u64) -> (r: u64)
    requires
        bad <= max,
        or <= max,
    ensures
        r == number_at(rows(t@), key@, max as nat, bad as nat, or as nat),
        r <= max,
{
    match find(t, key) {
        Some(v) => match parse_max(v, max) {
            Some(n) => n,
            None => bad,
        },
        None => or,
    }
}

pub fn get_decimal(t: &Vec<KeyValue>, key: &str, bad: &str, or: String) -> (r: String)
    ensures
        r@ == decimal_at(rows(t@), key@, bad@, or@),
{
    match find(t, key) {
        Some(v) => if decimal_ok(v) {
            v.to_owned()
        } else {
            bad.to_owned()
        },
        None => or,
    }
}

pub fn get_list(t: &Vec<KeyValue>, key: &str, sep: char, or: Vec<String>) -> (r: Vec<String>)
    ensures
        views(r@) == list_at(rows(t@), key@, sep, views(or@)),
{
    match find(t, key) {
        Some(v) => items_of(v, sep),
        None => or,
    }
}

/// A text that may be absent: the empty text is none.
pub fn nonempty(s: String) -> (r: Option<String>)
    ensures
        option_view(r) == filled(s@),
        r matches Some(x) ==> x == s,
{
    if s.as_str().is_empty() {
        None
    } else {
        Some(s)
    }
}

pub fn get_option(t: &Vec<KeyValue>, key: &str, or: Option<String>) -> (r: Option<String>)
    ensures
        option_view(r) == option_at(rows(t@), key@, option_view(or)),
{
    match find(t, key) {
        Some(v) => nonempty(v.to_owned()),
        None => or,
    }
}

pub fn get_option_decimal(t: &Vec<KeyValue>, key: &str, or: Option<String>) -> (r: Option<String>)
    ensures
        option_view(r) == option_decimal_at(rows(t@), key@, option_view(or)),
{
    match find(t, key) {
        Some(v) => if decimal_ok(v) {
            Some(v.to_owned())
        } else {
            None
        },
        None => or,
    }
}

pub fn get_option_number(t: &Vec<KeyValue>, key: &str, max: u64, or: Option<u64>) -> (r: Option<u64>)
    requires
        or is Some ==> or->0 <= max,
    ensures
        r == option_u64(option_number_at(rows(t@), key@, max as nat, number_view(or))),
        r is Some ==> r->0 <= max,
{
    match find(t, key) {
        Some(v) => parse_max(v, max),
        None => or,
    }
}

/// An optional mathematical number in 64 bits.
pub open spec fn option_u64(v: Option<nat>) -> Option<u64> {
    match v {
        Some(n) => Some(n as u64),
        None => None,
    }
}

/// An optional number as a mathematical one.
pub open spec fn number_view(v: Option<u64>) -> Option<nat> {
    match v {
        Some(n) => Some(n as nat),
        None => None,
    }
}

pub fn get_option_list(t: &Vec<KeyValue>, key: &str, sep: char, or: Option<Vec<String>>) -> (r: Option<
    Vec<String>,
>)
    ensures
        option_views(r) == option_list_at(rows(t@), key@, sep, option_views(or)),
{
    match find(t, key) {
        Some(v) => if v.is_empty() {
            None
        } else {
            Some(items_of(v, sep))
        },
        None => or,
    }
}

pub fn put_number(t: &mut Vec<KeyValue>, key: &str, n: u64)
    ensures
        rows(final(t)@) == rows(old(t)@).push((key@, dec(n as nat))),
{
    let text = fmt_u64(n);
    put(t, key, text.as_str());
}

pub fn put_flag(t: &mut Vec<KeyValue>, key: &str, b: bool)
    ensures
        rows(final(t)@) == rows(old(t)@).push((key@, bool_text(b))),
{
    put(t, key, bool_str(b));
}

pub fn put_option(t: &mut Vec<KeyValue>, key: &str, v: &Option<String>)
    ensures
        rows(final(t)@) == rows(old(t)@).push((key@, option_text(option_view(*v)))),
{
    match v {
        Some(x) => put(t, key, x.as_str()),
        None => {
            let empty = String::new();
            put(t, key, empty.as_str())
        },
    }
}

pub fn put_option_number(t: &mut Vec<KeyValue>, key: &str, v: Option<u64>)
    ensures
        rows(final(t)@) == rows(old(t)@).push((key@, option_number_text(number_view(v)))),
{
    match v {
        Some(n) => put_number(t, key, n),
        None => {
            let empty = String::new();
            put(t, key, empty.as_str())
        },
    }
}

/// The separator as a text.
pub fn sep_text(sep: char) -> (r: String)
    ensures
        r@ == seq![sep],
{
    let mut r = String::new();
    r.push(sep);
    assert(r@ =~= seq![sep]);
    r
}

pub fn put_list(t: &mut Vec<KeyValue>, key: &str, sep: char, l: &Vec<String>)
    ensures
        rows(final(t)@) == rows(old(t)@).push((key@, join(views(l@), seq![sep]))),
{
    let s = sep_text(sep);
    let text = join_text(l, s.as_str());
    put(t, key, text.as_str());
}

pub fn put_option_list(t: &mut Vec<KeyValue>, key: &str, sep: char, v: &Option<Vec<String>>)
    ensures
        rows(final(t)@) == rows(old(t)@).push((key@, option_list_text(option_views(*v), sep))),
{
    match v {
        Some(l) => put_list(t, key, sep, l),
        None => {
            let empty = String::new();
            put(t, key, empty.as_str())
        },
    }
}

/// An optional number that was written reads back as itself.
pub proof fn option_number_reads_back(v: Option<nat>, max: nat)
    requires
        v is Some ==> v->0 <= max,
    ensures
        parsed(option_number_text(v), max) == v,
{
    match v {
        Some(n) => {
            parsed_of_dec(n, max);
        },
        None => {},
    }
}

// ---------------------------------------------------------------------------
// Laws
// ---------------------------------------------------------------------------

/// Of the rows under a key the last counts, and rows under other keys do not matter.
pub proof fn last_row_of_a_key_counts(t: Seq<(Seq<char>, Seq<char>)>, key: Seq<char>, other: Seq<char>,
    value: Seq<char>)
    ensures
        lookup(t.push((key, value)), key) == Some(value),
        other != key ==> lookup(t.push((other, value)), key) == lookup(t, key),
        lookup(Seq::<(Seq<char>, Seq<char>)>::empty(), key) is None,
{
    reveal(lookup);
    assert(t.push((key, value)).drop_last() =~= t);
    assert(t.push((other, value)).drop_last() =~= t);
}

/// A setting that is not stored is what it is otherwise; a stored one is read by its kind.
pub proof fn settings_are_read_or_kept(t: Seq<(Seq<char>, Seq<char>)>, key: Seq<char>, or: Seq<char>, b: bool,
    max: nat, bad: nat, n: nat, sep: char, l: Seq<Seq<char>>, x: Seq<char>)
    ensures
        lookup(t, key) is None ==> text_at(t, key, or) == or && filled_text_at(t, key, or) == or
            && flag_at(t, key, b) == b && number_at(t, key, max, bad, n) == n && list_at(t, key, sep, l) == l
            && option_at(t, key, Some(or)) == Some(or) && option_at(t, key, None) is None
            && option_list_at(t, key, sep, Some(l)) == Some(l) && option_number_at(t, key, max, Some(n)) == Some(n),
        lookup(t, key) == Some(x) ==> text_at(t, key, or) == x && (flag_at(t, key, b) <==> x == "true"@)
            && list_at(t, key, sep, l) == items(x, sep) && option_number_at(t, key, max, Some(n)) == parsed(x, max),
        lookup(t, key) == Some(x) && x.len() > 0 ==> filled_text_at(t, key, or) == x
            && option_at(t, key, None) == Some(x) && option_list_at(t, key, sep, None) == Some(items(x, sep)),
        lookup(t, key) == Some(x) && x.len() == 0 ==> filled_text_at(t, key, or) == or
            && option_at(t, key, Some(or)) is None && option_list_at(t, key, sep, Some(l)) is None,
        lookup(t, key) == Some(x) && parsed(x, max) is Some ==> Some(number_at(t, key, max, bad, n)) == parsed(x, max),
        lookup(t, key) == Some(x) && parsed(x, max) is None ==> number_at(t, key, max, bad, n) == bad,
{
}

/// The pieces of a list are trimmed one by one and stay in order.
pub proof fn pieces_are_trimmed_in_order(a: Seq<Seq<char>>, b: Seq<Seq<char>>)
    ensures
        trimmed_pieces(Seq::<Seq<char>>::empty()) == Seq::<Seq<char>>::empty(),
        trimmed_pieces(a + b) == trimmed_pieces(a) + trimmed_pieces(b),
    decreases b.len(),
{
    if b.len() == 0 {
        assert(a + b =~= a);
        assert(trimmed_pieces(a) + trimmed_pieces(b) =~= trimmed_pieces(a));
    } else {
        assert((a + b).drop_last() =~= a + b.drop_last());
        pieces_are_trimmed_in_order(a, b.drop_last());
        assert(trimmed_pieces(a + b) =~= trimmed_pieces(a) + trimmed_pieces(b));
    }
}

/// A piece stands without white space around it, and a blank one is left out.
pub proof fn blank_pieces_are_left_out(p: Seq<char>)
    ensures
        trim(p).len() == 0 ==> trimmed_pieces(Seq::<Seq<char>>::empty().push(p)).len() == 0,
        trim(p).len() > 0 ==> trimmed_pieces(Seq::<Seq<char>>::empty().push(p)) == seq![trim(p)],
{
    reveal_with_fuel(trimmed_pieces, 2);
    assert(Seq::<Seq<char>>::empty().push(p).drop_last() =~= Seq::<Seq<char>>::empty());
}

/// Truth is written `true` and anything else `false`.
pub proof fn truth_is_written_out()
    ensures
        bool_text(true) == seq!['t', 'r', 'u', 'e'],
        bool_text(false) == seq!['f', 'a', 'l', 's', 'e'],
{
    reveal_strlit("true");
    reveal_strlit("false");
    assert("true"@ =~= seq!['t', 'r', 'u', 'e']);
    assert("false"@ =~= seq!['f', 'a', 'l', 's', 'e']);
}

/// A row has its key and its value, and rows stay in order.
pub proof fn rows_hold_their_parts(v: Seq<KeyValue>, i: int)
    ensures
        rows(v).len() == v.len(),
        0 <= i < v.len() ==> rows(v)[i].0 == v[i].key@ && rows(v)[i].1 == v[i].value@,
{
}

} // verus!
