//! Character-level text operations with exact contracts.
//!
//! A text is modelled by its sequence of characters. The operations mirror
//! the `str` methods of the same purpose; each is stated as a function of the
//! character sequence alone, so that everything built on top of them (key/value
//! stores, generated configuration files, validators) has a mathematical model.

use vstd::prelude::*;
use vstd::string::*;

verus! {

/// The sequence of texts held by a list of strings.
pub open spec fn views(v: Seq<String>) -> Seq<Seq<char>> {
    Seq::new(v.len(), |i: int| v[i]@)
}

/// `String::push` appends one character at the end.
pub assume_specification[ String::push ](s: &mut String, c: char)
    ensures
        final(s)@ == old(s)@.push(c),
;

/// The characters of `s`, in order.
pub fn chars_of(s: &str) -> (v: Vec<char>)
    ensures
        v@ == s@,
{
    let mut v: Vec<char> = Vec::new();
    for c in it: s.chars()
        invariant
            it.seq() == s@,
            v@ == s@.take(it.index()),
    {
        v.push(c);
        assert(s@.take(it.index() + 1) =~= s@.take(it.index()).push(c));
    }
    assert(s@.take(s@.len() as int) =~= s@);
    v
}

/// The text made of the characters `v[from..to]`.
pub fn text_between(v: &Vec<char>, from: usize, to: usize) -> (s: String)
    requires
        from <= to <= v@.len(),
    ensures
        s@ == v@.subrange(from as int, to as int),
{
    let mut s = String::new();
    let mut i: usize = from;
    while i < to
        invariant
            from <= i <= to <= v@.len(),
            s@ == v@.subrange(from as int, i as int),
        decreases to - i,
    {
        s.push(v[i]);
        i = i + 1;
        assert(v@.subrange(from as int, i as int) =~= v@.subrange(from as int, i - 1).push(v@[i - 1]));
    }
    s
}

/// Whether two texts are the same.
pub fn same(a: &str, b: &str) -> (r: bool)
    ensures
        r == (a@ == b@),
{
    let x = chars_of(a);
    let y = chars_of(b);
    if x.len() != y.len() {
        return false;
    }
    let mut i: usize = 0;
    while i < x.len()
        invariant
            i <= x@.len(),
            x@.len() == y@.len(),
            x@ == a@,
            y@ == b@,
            forall|k: int| 0 <= k < i ==> x@[k] == y@[k],
        decreases x.len() - i,
    {
        if x[i] != y[i] {
            return false;
        }
        i = i + 1;
    }
    assert(x@ =~= y@);
    true
}

/// The concatenation of two texts.
pub fn cat2(a: &str, b: &str) -> (s: String)
    ensures
        s@ == a@ + b@,
{
    let mut s = a.to_owned();
    s.append(b);
    s
}

/// The concatenation of three texts.
pub fn cat3(a: &str, b: &str, c: &str) -> (s: String)
    ensures
        s@ == a@ + b@ + c@,
{
    let mut s = cat2(a, b);
    s.append(c);
    s
}

/// The concatenation of four texts.
pub fn cat4(a: &str, b: &str, c: &str, d: &str) -> (s: String)
    ensures
        s@ == a@ + b@ + c@ + d@,
{
    let mut s = cat3(a, b, c);
    s.append(d);
    s
}

/// The concatenation of five texts.
pub fn cat5(a: &str, b: &str, c: &str, d: &str, e: &str) -> (s: String)
    ensures
        s@ == a@ + b@ + c@ + d@ + e@,
{
    let mut s = cat4(a, b, c, d);
    s.append(e);
    s
}

// ---------------------------------------------------------------------------
// White space
// ---------------------------------------------------------------------------

/// The characters with the Unicode property `White_Space`.
pub open spec fn is_space(c: char) -> bool {
    ||| '\u{9}' <= c <= '\u{d}'
    ||| c == ' '
    ||| c == '\u{85}'
    ||| c == '\u{a0}'
    ||| c == '\u{1680}'
    ||| '\u{2000}' <= c <= '\u{200a}'
    ||| c == '\u{2028}'
    ||| c == '\u{2029}'
    ||| c == '\u{202f}'
    ||| c == '\u{205f}'
    ||| c == '\u{3000}'
}

/// Decides [`is_space`].
pub fn is_space_char(c: char) -> (r: bool)
    ensures
        r == is_space(c),
{
    ('\u{9}' <= c && c <= '\u{d}') || c == ' ' || c == '\u{85}' || c == '\u{a0}' || c == '\u{1680}' || (
    '\u{2000}' <= c && c <= '\u{200a}') || c == '\u{2028}' || c == '\u{2029}' || c == '\u{202f}' || c
        == '\u{205f}' || c == '\u{3000}'
}

/// `s` without its leading white space.
pub open spec fn trim_start(s: Seq<char>) -> Seq<char>
    decreases s.len(),
{
    if s.len() > 0 && is_space(s[0]) {
        trim_start(s.subrange(1, s.len() as int))
    } else {
        s
    }
}

/// `s` without its trailing white space.
pub open spec fn trim_end(s: Seq<char>) -> Seq<char>
    decreases s.len(),
{
    if s.len() > 0 && is_space(s.last()) {
        trim_end(s.drop_last())
    } else {
        s
    }
}

/// `s` without leading and trailing white space.
pub open spec fn trim(s: Seq<char>) -> Seq<char> {
    trim_end(trim_start(s))
}

/// `s` neither starts nor ends with white space.
pub open spec fn is_trimmed(s: Seq<char>) -> bool {
    s.len() > 0 ==> !is_space(s[0]) && !is_space(s.last())
}

/// Trimming a text twice is trimming it once: what `trim` returns has no
/// white space at either end, and such a text is kept as it is.
pub proof fn trim_is_idempotent(s: Seq<char>)
    ensures
        is_trimmed(trim(s)),
        trim(trim(s)) == trim(s),
        is_trimmed(s) ==> trim(s) == s,
{
    let t = trim_start(s);
    lemma_trim_start(s);
    lemma_trim_end(t);
    let u = trim_end(t);
    if u.len() > 0 {
        assert(u[0] == t[0]);
    }
    assert(trim_start(u) == u);
    assert(trim_end(u) == u);
    if is_trimmed(s) {
        assert(trim_start(s) == s);
        assert(trim_end(s) == s);
    }
}

proof fn lemma_trim_start(s: Seq<char>)
    ensures
        ({
            let t = trim_start(s);
            &&& t.len() <= s.len()
            &&& t == s.subrange(s.len() - t.len(), s.len() as int)
            &&& t.len() > 0 ==> !is_space(t[0])
        }),
    decreases s.len(),
{
    if s.len() > 0 && is_space(s[0]) {
        let r = s.subrange(1, s.len() as int);
        lemma_trim_start(r);
        let t = trim_start(r);
        assert(t =~= s.subrange(s.len() - t.len(), s.len() as int));
    } else {
        assert(s =~= s.subrange(0, s.len() as int));
    }
}

proof fn lemma_trim_end(s: Seq<char>)
    ensures
        ({
            let t = trim_end(s);
            &&& t.len() <= s.len()
            &&& t == s.take(t.len() as int)
            &&& t.len() > 0 ==> !is_space(t.last())
        }),
    decreases s.len(),
{
    if s.len() > 0 && is_space(s.last()) {
        lemma_trim_end(s.drop_last());
        let t = trim_end(s.drop_last());
        assert(t =~= s.take(t.len() as int));
    } else {
        assert(s =~= s.take(s.len() as int));
    }
}

/// A character of the trimmed text is one of the text.
pub proof fn trim_adds_nothing(s: Seq<char>, c: char)
    ensures
        trim(s).contains(c) ==> s.contains(c),
{
    let t = trim_start(s);
    let u = trim_end(t);
    lemma_trim_start(s);
    lemma_trim_end(t);
    if u.contains(c) {
        let i = choose|i: int| 0 <= i < u.len() && u[i] == c;
        assert(t[i] == c);
        assert(s[s.len() - t.len() + i] == c);
    }
}

/// `str::trim`.
pub fn trimmed(s: &str) -> (r: String)
    ensures
        r@ == trim(s@),
{
    let v = chars_of(s);
    let mut from: usize = 0;
    assert(v@.subrange(0, v@.len() as int) =~= v@);
    while from < v.len() && is_space_char(v[from])
        invariant
            from <= v@.len(),
            trim_start(v@) == trim_start(v@.subrange(from as int, v@.len() as int)),
        decreases v.len() - from,
    {
        assert(v@.subrange(from as int, v@.len() as int).subrange(1, v@.len() - from)
            =~= v@.subrange(from + 1, v@.len() as int));
        from = from + 1;
    }
    let ghost t = v@.subrange(from as int, v@.len() as int);
    assert(trim_start(v@) == t);
    let mut to: usize = v.len();
    while to > from && is_space_char(v[to - 1])
        invariant
            from <= to <= v@.len(),
            trim_end(t) == trim_end(v@.subrange(from as int, to as int)),
        decreases to,
    {
        assert(v@.subrange(from as int, to as int).drop_last() =~= v@.subrange(from as int, to - 1));
        to = to - 1;
    }
    text_between(&v, from, to)
}

// ---------------------------------------------------------------------------
// Splitting and joining
// ---------------------------------------------------------------------------

/// The pieces of `s` between occurrences of `sep`; always at least one piece.
pub open spec fn split(s: Seq<char>, sep: char) -> Seq<Seq<char>>
    decreases s.len(),
{
    if s.len() == 0 {
        seq![Seq::<char>::empty()]
    } else {
        let init = split(s.drop_last(), sep);
        if s.last() == sep {
            init.push(Seq::<char>::empty())
        } else {
            init.update(init.len() - 1, init.last().push(s.last()))
        }
    }
}

/// The parts put one behind the other with `sep` between them.
pub open spec fn join(parts: Seq<Seq<char>>, sep: Seq<char>) -> Seq<char>
    decreases parts.len(),
{
    if parts.len() == 0 {
        Seq::<char>::empty()
    } else if parts.len() == 1 {
        parts[0]
    } else {
        join(parts.drop_last(), sep) + sep + parts.last()
    }
}

/// No piece of a split holds the separator, and there is always a piece.
pub proof fn split_pieces(s: Seq<char>, sep: char)
    ensures
        split(s, sep).len() >= 1,
        forall|i: int| 0 <= i < split(s, sep).len() ==> !(#[trigger] split(s, sep)[i]).contains(sep),
    decreases s.len(),
{
    if s.len() > 0 {
        split_pieces(s.drop_last(), sep);
        let init = split(s.drop_last(), sep);
        assert forall|i: int| 0 <= i < split(s, sep).len() implies !(#[trigger] split(s, sep)[i]).contains(
            sep,
        ) by {
            if s.last() != sep && i == init.len() - 1 {
                let p = init.last();
                assert(!p.contains(sep));
                if p.push(s.last()).contains(sep) {
                    let k = choose|k: int| 0 <= k < p.push(s.last()).len() && p.push(s.last())[k] == sep;
                    assert(k < p.len());
                    assert(p[k] == sep);
                }
            } else if i < init.len() {
                assert(split(s, sep)[i] == init[i]);
            }
        }
    }
}

/// Joining the pieces of a split gives the text back.
pub proof fn join_of_split(s: Seq<char>, sep: char)
    ensures
        join(split(s, sep), seq![sep]) == s,
    decreases s.len(),
{
    if s.len() == 0 {
    } else {
        let init = split(s.drop_last(), sep);
        split_pieces(s.drop_last(), sep);
        join_of_split(s.drop_last(), sep);
        let whole = split(s, sep);
        if s.last() == sep {
            assert(whole.drop_last() =~= init);
            assert(join(whole, seq![sep]) == s.drop_last() + seq![sep] + Seq::<char>::empty());
            assert(s.drop_last() + seq![sep] + Seq::<char>::empty() =~= s);
        } else {
            assert(whole.drop_last() =~= init.drop_last());
            if init.len() == 1 {
                assert(join(whole, seq![sep]) == init[0].push(s.last()));
                assert(init[0].push(s.last()) =~= s);
            } else {
                let head = join(init.drop_last(), seq![sep]);
                assert(join(init, seq![sep]) == head + seq![sep] + init.last());
                assert(join(whole, seq![sep]) == head + seq![sep] + init.last().push(s.last()));
                assert(head + seq![sep] + init.last().push(s.last()) =~= (head + seq![sep] + init.last()).push(
                    s.last(),
                ));
                assert((head + seq![sep] + init.last()).push(s.last()) =~= s);
            }
        }
    }
}

proof fn lemma_split_append(a: Seq<char>, b: Seq<char>, sep: char)
    requires
        !b.contains(sep),
    ensures
        split(a + b, sep) == split(a, sep).update(
            split(a, sep).len() - 1,
            split(a, sep).last() + b,
        ),
    decreases b.len(),
{
    let sa = split(a, sep);
    split_pieces(a, sep);
    if b.len() == 0 {
        assert(a + b =~= a);
        assert(sa.last() + b =~= sa.last());
        assert(sa.update(sa.len() - 1, sa.last()) =~= sa);
    } else {
        let c = b.drop_last();
        assert(!c.contains(sep)) by {
            if c.contains(sep) {
                let k = choose|k: int| 0 <= k < c.len() && c[k] == sep;
                assert(b[k] == sep);
            }
        }
        assert(b.last() != sep) by {
            assert(b[b.len() - 1] == b.last());
        }
        lemma_split_append(a, c, sep);
        assert((a + b).drop_last() =~= a + c);
        let init = split(a + c, sep);
        assert(init.last() == sa.last() + c);
        assert((sa.last() + c).push(b.last()) =~= sa.last() + b);
        assert(split(a + b, sep) =~= sa.update(sa.len() - 1, sa.last() + b));
    }
}

/// Splitting what was joined gives the parts back, as long as there is a
/// part and none of them holds the separator.
pub proof fn split_of_join(parts: Seq<Seq<char>>, sep: char)
    requires
        parts.len() >= 1,
        forall|i: int| 0 <= i < parts.len() ==> !(#[trigger] parts[i]).contains(sep),
    ensures
        split(join(parts, seq![sep]), sep) == parts,
    decreases parts.len(),
{
    let e = Seq::<char>::empty();
    if parts.len() == 1 {
        lemma_split_append(e, parts[0], sep);
        assert(e + parts[0] =~= parts[0]);
        assert(split(e, sep) =~= seq![e]);
        assert(split(parts[0], sep) =~= parts);
    } else {
        let init = parts.drop_last();
        assert forall|i: int| 0 <= i < init.len() implies !(#[trigger] init[i]).contains(sep) by {
            assert(init[i] == parts[i]);
        }
        split_of_join(init, sep);
        let j = join(init, seq![sep]);
        assert((j + seq![sep]).drop_last() =~= j);
        assert(split(j + seq![sep], sep) == init.push(e));
        assert(!parts[parts.len() - 1].contains(sep));
        lemma_split_append(j + seq![sep], parts.last(), sep);
        assert(e + parts.last() =~= parts.last());
        assert(init.push(e).update(init.len() as int, parts.last()) =~= parts);
    }
}

/// `str::split` by a character.
pub fn split_text(s: &str, sep: char) -> (r: Vec<String>)
    ensures
        views(r@) == split(s@, sep),
{
    let v = chars_of(s);
    let mut done: Vec<String> = Vec::new();
    let mut cur = String::new();
    let mut i: usize = 0;
    proof {
        assert(v@.take(0) =~= Seq::<char>::empty());
        assert(views(done@).push(cur@) =~= seq![Seq::<char>::empty()]);
    }
    while i < v.len()
        invariant
            i <= v@.len(),
            v@ == s@,
            views(done@).push(cur@) == split(v@.take(i as int), sep),
        decreases v.len() - i,
    {
        let ghost before = views(done@).push(cur@);
        proof {
            assert(v@.take(i + 1).drop_last() =~= v@.take(i as int));
            assert(v@.take(i + 1).last() == v@[i as int]);
        }
        if v[i] == sep {
            done.push(cur);
            cur = String::new();
            assert(views(done@) =~= before);
        } else {
            let ghost old_cur = cur@;
            cur.push(v[i]);
            assert(before.last() == old_cur);
            assert(views(done@).push(cur@) =~= before.update(before.len() - 1, old_cur.push(v@[i as int])));
        }
        i = i + 1;
    }
    proof {
        assert(v@.take(v@.len() as int) =~= v@);
    }
    let ghost before = views(done@).push(cur@);
    done.push(cur);
    assert(views(done@) =~= before);
    done
}

/// `[String]::join`.
pub fn join_text(parts: &Vec<String>, sep: &str) -> (r: String)
    ensures
        r@ == join(views(parts@), sep@),
{
    let mut r = String::new();
    let mut i: usize = 0;
    assert(views(parts@).take(0) =~= Seq::<Seq<char>>::empty());
    while i < parts.len()
        invariant
            i <= parts@.len(),
            r@ == join(views(parts@).take(i as int), sep@),
        decreases parts.len() - i,
    {
        let ghost t = views(parts@).take(i + 1);
        assert(t.drop_last() =~= views(parts@).take(i as int));
        assert(t.last() == parts@[i as int]@);
        if i > 0 {
            r.append(sep);
        }
        let ghost mid = r@;
        r.append(parts[i].as_str());
        assert(mid + t.last() =~= join(t, sep@));
        i = i + 1;
    }
    assert(views(parts@).take(parts@.len() as int) =~= views(parts@));
    r
}

// ---------------------------------------------------------------------------
// Prefixes, suffixes, occurrences
// ---------------------------------------------------------------------------

/// `s` starts with `p`.
pub open spec fn has_prefix(s: Seq<char>, p: Seq<char>) -> bool {
    p.len() <= s.len() && s.take(p.len() as int) == p
}

/// `s` ends with `p`.
pub open spec fn has_suffix(s: Seq<char>, p: Seq<char>) -> bool {
    p.len() <= s.len() && s.skip(s.len() - p.len()) == p
}

/// `p` occurs in `s` at index `i`.
pub open spec fn occurs_at(s: Seq<char>, p: Seq<char>, i: int) -> bool {
    0 <= i && i + p.len() <= s.len() && s.subrange(i, i + p.len()) == p
}

/// `p` occurs somewhere in `s`.
pub open spec fn has_text(s: Seq<char>, p: Seq<char>) -> bool {
    exists|i: int| occurs_at(s, p, i)
}

fn matches_at(v: &Vec<char>, p: &Vec<char>, at: usize) -> (r: bool)
    requires
        at <= v@.len(),
    ensures
        r == occurs_at(v@, p@, at as int),
{
    let n: usize = v.len();
    if p.len() > n - at {
        return false;
    }
    let mut i: usize = 0;
    while i < p.len()
        invariant
            i <= p@.len(),
            n == v@.len(),
            at + p@.len() <= n,
            forall|k: int| 0 <= k < i ==> v@[at + k] == p@[k],
        decreases p.len() - i,
    {
        if v[at + i] != p[i] {
            assert(v@.subrange(at as int, at + p@.len())[i as int] != p@[i as int]);
            return false;
        }
        i = i + 1;
    }
    assert(v@.subrange(at as int, at + p@.len()) =~= p@);
    true
}

/// `str::starts_with`.
pub fn starts_with(s: &str, p: &str) -> (r: bool)
    ensures
        r == has_prefix(s@, p@),
{
    let v = chars_of(s);
    let q = chars_of(p);
    proof {
        if q@.len() <= v@.len() {
            assert(v@.subrange(0, q@.len() as int) =~= v@.take(q@.len() as int));
        }
    }
    matches_at(&v, &q, 0)
}

/// `str::ends_with`.
pub fn ends_with(s: &str, p: &str) -> (r: bool)
    ensures
        r == has_suffix(s@, p@),
{
    let v = chars_of(s);
    let q = chars_of(p);
    if q.len() > v.len() {
        return false;
    }
    proof {
        assert(v@.subrange(v@.len() - q@.len(), v@.len() as int) =~= v@.skip(v@.len() - q@.len()));
    }
    matches_at(&v, &q, v.len() - q.len())
}

/// `str::contains`.
pub fn contains_text(s: &str, p: &str) -> (r: bool)
    ensures
        r == has_text(s@, p@),
{
    let v = chars_of(s);
    let q = chars_of(p);
    let mut i: usize = 0;
    while i <= v.len()
        invariant
            i <= v@.len() + 1,
            v@ == s@,
            q@ == p@,
            forall|k: int| 0 <= k < i ==> !occurs_at(v@, q@, k),
        decreases v.len() + 1 - i,
    {
        if matches_at(&v, &q, i) {
            return true;
        }
        if i == v.len() {
            return false;
        }
        i = i + 1;
    }
    false
}

/// `str::strip_prefix`.
pub fn strip_prefix(s: &str, p: &str) -> (r: Option<String>)
    ensures
        match r {
            Some(t) => has_prefix(s@, p@) && t@ == s@.skip(p@.len() as int),
            None => !has_prefix(s@, p@),
        },
{
    if !starts_with(s, p) {
        return None;
    }
    let v = chars_of(s);
    let q = chars_of(p);
    let t = text_between(&v, q.len(), v.len());
    assert(t@ =~= s@.skip(p@.len() as int));
    Some(t)
}

/// `str::contains` with a character.
pub fn contains_char(s: &str, c: char) -> (r: bool)
    ensures
        r == s@.contains(c),
{
    let v = chars_of(s);
    let mut i: usize = 0;
    while i < v.len()
        invariant
            i <= v@.len(),
            v@ == s@,
            forall|k: int| 0 <= k < i ==> v@[k] != c,
        decreases v.len() - i,
    {
        if v[i] == c {
            assert(v@[i as int] == c);
            return true;
        }
        i = i + 1;
    }
    false
}

/// `str::split_once`: the text before and behind the first `sep`.
pub fn split_once(s: &str, sep: char) -> (r: Option<(String, String)>)
    ensures
        match r {
            Some((a, b)) => s@ == a@ + seq![sep] + b@ && !a@.contains(sep),
            None => !s@.contains(sep),
        },
{
    let v = chars_of(s);
    let mut i: usize = 0;
    while i < v.len()
        invariant
            i <= v@.len(),
            v@ == s@,
            forall|k: int| 0 <= k < i ==> v@[k] != sep,
        decreases v.len() - i,
    {
        if v[i] == sep {
            let a = text_between(&v, 0, i);
            let b = text_between(&v, i + 1, v.len());
            assert(s@ =~= a@ + seq![sep] + b@);
            return Some((a, b));
        }
        i = i + 1;
    }
    None
}

// ---------------------------------------------------------------------------
// ASCII letter case
// ---------------------------------------------------------------------------

/// The lower-case form of an ASCII letter; any other character is kept.
pub open spec fn lower(c: char) -> char {
    if 'A' <= c <= 'Z' {
        ((c as u32) + 32) as char
    } else {
        c
    }
}

/// `s` with its ASCII letters in lower case.
pub open spec fn lowercase(s: Seq<char>) -> Seq<char> {
    Seq::new(s.len(), |i: int| lower(s[i]))
}

/// `char::to_ascii_lowercase`.
pub fn lower_char(c: char) -> (r: char)
    ensures
        r == lower(c),
{
    if 'A' <= c && c <= 'Z' {
        let b: u8 = c as u8;
        (b + 32) as char
    } else {
        c
    }
}

/// `str::to_ascii_lowercase`.
pub fn lowercase_text(s: &str) -> (r: String)
    ensures
        r@ == lowercase(s@),
{
    let v = chars_of(s);
    let mut r = String::new();
    let mut i: usize = 0;
    while i < v.len()
        invariant
            i <= v@.len(),
            v@ == s@,
            r@ == lowercase(v@.take(i as int)),
        decreases v.len() - i,
    {
        r.push(lower_char(v[i]));
        i = i + 1;
        assert(r@ =~= lowercase(v@.take(i as int)));
    }
    assert(v@.take(v@.len() as int) =~= v@);
    r
}

// ---------------------------------------------------------------------------
// Lines
// ---------------------------------------------------------------------------

/// A line without the carriage return in front of its line feed.
pub open spec fn strip_cr(line: Seq<char>) -> Seq<char> {
    if line.len() > 0 && line.last() == '\r' {
        line.drop_last()
    } else {
        line
    }
}

/// The lines of `s`: a line feed ends a line and is no part of it, nor is a
/// carriage return in front of it; an empty rest is no line.
pub open spec fn lines(s: Seq<char>) -> Seq<Seq<char>> {
    let p = split(s, '\n');
    let ended = Seq::new((p.len() - 1) as nat, |i: int| strip_cr(p[i]));
    if p.last().len() == 0 {
        ended
    } else {
        ended.push(p.last())
    }
}

fn without_cr(line: String) -> (r: String)
    ensures
        r@ == strip_cr(line@),
{
    let v = chars_of(line.as_str());
    if v.len() > 0 && v[v.len() - 1] == '\r' {
        let r = text_between(&v, 0, v.len() - 1);
        assert(r@ =~= line@.drop_last());
        r
    } else {
        line
    }
}

/// `str::lines`.
pub fn lines_of(s: &str) -> (r: Vec<String>)
    ensures
        views(r@) == lines(s@),
{
    let pieces = split_text(s, '\n');
    proof {
        split_pieces(s@, '\n');
    }
    let n: usize = pieces.len();
    assert(views(pieces@).len() == n);
    let mut r: Vec<String> = Vec::new();
    let mut i: usize = 0;
    while i + 1 < n
        invariant
            i < n,
            n == pieces@.len(),
            r@.len() == i,
            forall|k: int| 0 <= k < i ==> (#[trigger] r@[k])@ == strip_cr(pieces@[k]@),
        decreases n - i,
    {
        r.push(without_cr(pieces[i].clone()));
        i = i + 1;
    }
    let ghost ended = Seq::new((n - 1) as nat, |k: int| strip_cr(views(pieces@)[k]));
    assert(views(r@) =~= ended);
    let last = pieces[n - 1].clone();
    if last.as_str().is_empty() {
        r
    } else {
        r.push(last);
        assert(views(r@) =~= ended.push(views(pieces@).last()));
        r
    }
}

// ---------------------------------------------------------------------------
// Lists of texts
// ---------------------------------------------------------------------------

/// Whether `needle` is one of the texts of `list`.
pub fn list_contains(list: &Vec<String>, needle: &str) -> (r: bool)
    ensures
        r == views(list@).contains(needle@),
{
    let mut i: usize = 0;
    while i < list.len()
        invariant
            i <= list@.len(),
            forall|k: int| 0 <= k < i ==> list@[k]@ != needle@,
        decreases list.len() - i,
    {
        if same(list[i].as_str(), needle) {
            assert(views(list@)[i as int] == needle@);
            return true;
        }
        i = i + 1;
    }
    proof {
        if views(list@).contains(needle@) {
            let k = choose|k: int| 0 <= k < views(list@).len() && views(list@)[k] == needle@;
            assert(list@[k]@ != needle@);
        }
    }
    false
}

/// Adds one text at the end of a list.
pub fn push_line(list: &mut Vec<String>, line: String)
    ensures
        views(final(list)@) == views(old(list)@).push(line@),
{
    let ghost before = list@;
    let ghost l = line@;
    list.push(line);
    assert(views(list@) =~= views(before).push(l));
}

/// Every text of `l` with `before` in front of it and `after` behind it.
pub open spec fn wrapped(before: Seq<char>, l: Seq<Seq<char>>, after: Seq<char>) -> Seq<Seq<char>> {
    Seq::new(l.len(), |i: int| before + l[i] + after)
}

/// Every text of `l` with `before` in front of it and `after` behind it.
pub fn wrap_all(before: &str, l: &Vec<String>, after: &str) -> (r: Vec<String>)
    ensures
        views(r@) == wrapped(before@, views(l@), after@),
{
    let mut r: Vec<String> = Vec::new();
    let mut i: usize = 0;
    while i < l.len()
        invariant
            i <= l@.len(),
            r@.len() == i,
            forall|k: int| 0 <= k < i ==> (#[trigger] r@[k])@ == before@ + l@[k]@ + after@,
        decreases l.len() - i,
    {
        r.push(cat3(before, l[i].as_str(), after));
        i = i + 1;
    }
    assert(views(r@) =~= wrapped(before@, views(l@), after@));
    r
}

/// Adds the texts of `more` at the end of a list.
pub fn append_lines(list: &mut Vec<String>, more: Vec<String>)
    ensures
        views(final(list)@) == views(old(list)@) + views(more@),
{
    let ghost before = list@;
    let mut m = more;
    list.append(&mut m);
    assert(views(list@) =~= views(before) + views(more@));
}

/// The texts one behind the other.
pub open spec fn concat(l: Seq<Seq<char>>) -> Seq<char> {
    join(l, Seq::empty())
}

/// The texts that are not empty, in order.
pub open spec fn filled_only(l: Seq<Seq<char>>) -> Seq<Seq<char>>
    decreases l.len(),
{
    if l.len() == 0 {
        Seq::<Seq<char>>::empty()
    } else if l.last().len() == 0 {
        filled_only(l.drop_last())
    } else {
        filled_only(l.drop_last()).push(l.last())
    }
}

/// The texts of `l` that are not empty, in order.
pub fn keep_filled(l: &Vec<String>) -> (r: Vec<String>)
    ensures
        views(r@) == filled_only(views(l@)),
{
    let ghost all = views(l@);
    let mut r: Vec<String> = Vec::new();
    let mut i: usize = 0;
    assert(views(r@) =~= filled_only(all.take(0)));
    while i < l.len()
        invariant
            i <= l@.len(),
            all == views(l@),
            views(r@) == filled_only(all.take(i as int)),
        decreases l.len() - i,
    {
        assert(all.take(i + 1).drop_last() =~= all.take(i as int));
        if !l[i].as_str().is_empty() {
            push_line(&mut r, l[i].clone());
        }
        i = i + 1;
    }
    assert(all.take(l@.len() as int) =~= all);
    r
}

// ---------------------------------------------------------------------------
// Words, padding, trailing characters
// ---------------------------------------------------------------------------

/// The pieces of `s` between white-space characters; always at least one piece.
pub open spec fn space_pieces(s: Seq<char>) -> Seq<Seq<char>>
    decreases s.len(),
{
    if s.len() == 0 {
        seq![Seq::<char>::empty()]
    } else {
        let init = space_pieces(s.drop_last());
        if is_space(s.last()) {
            init.push(Seq::<char>::empty())
        } else {
            init.update(init.len() - 1, init.last().push(s.last()))
        }
    }
}

/// The words of `s`: what stands between white space.
pub open spec fn words(s: Seq<char>) -> Seq<Seq<char>> {
    filled_only(space_pieces(s))
}

/// `str::split_whitespace`.
pub fn words_of(s: &str) -> (r: Vec<String>)
    ensures
        views(r@) == words(s@),
{
    let v = chars_of(s);
    let mut done: Vec<String> = Vec::new();
    let mut cur = String::new();
    let mut i: usize = 0;
    proof {
        assert(v@.take(0) =~= Seq::<char>::empty());
        assert(views(done@).push(cur@) =~= seq![Seq::<char>::empty()]);
    }
    while i < v.len()
        invariant
            i <= v@.len(),
            v@ == s@,
            views(done@).push(cur@) == space_pieces(v@.take(i as int)),
        decreases v.len() - i,
    {
        let ghost before = views(done@).push(cur@);
        proof {
            assert(v@.take(i + 1).drop_last() =~= v@.take(i as int));
            assert(v@.take(i + 1).last() == v@[i as int]);
        }
        if is_space_char(v[i]) {
            done.push(cur);
            cur = String::new();
            assert(views(done@) =~= before);
        } else {
            let ghost old_cur = cur@;
            cur.push(v[i]);
            assert(before.last() == old_cur);
            assert(views(done@).push(cur@) =~= before.update(before.len() - 1, old_cur.push(v@[i as int])));
        }
        i = i + 1;
    }
    proof {
        assert(v@.take(v@.len() as int) =~= v@);
    }
    let ghost before = views(done@).push(cur@);
    done.push(cur);
    assert(views(done@) =~= before);
    keep_filled(&done)
}

/// `s` with spaces behind it up to `width` characters.
pub open spec fn padded(s: Seq<char>, width: nat) -> Seq<char> {
    if s.len() >= width {
        s
    } else {
        s + Seq::new((width - s.len()) as nat, |i: int| ' ')
    }
}

/// `s` with spaces behind it up to `width` characters.
pub fn pad_right(s: &str, width: usize) -> (r: String)
    ensures
        r@ == padded(s@, width as nat),
{
    let v = chars_of(s);
    let mut r = s.to_owned();
    let mut n: usize = v.len();
    while n < width
        invariant
            v@ == s@,
            v@.len() <= n,
            n <= width || n == v@.len(),
            r@ == s@ + Seq::new((n - s@.len()) as nat, |i: int| ' '),
        decreases width - n,
    {
        r.push(' ');
        n = n + 1;
        assert(r@ =~= s@ + Seq::new((n - s@.len()) as nat, |i: int| ' '));
    }
    assert(s@ + Seq::new(0, |i: int| ' ') =~= s@);
    r
}

/// `s` without the characters `c` at its end.
pub open spec fn trim_end_of(s: Seq<char>, c: char) -> Seq<char>
    decreases s.len(),
{
    if s.len() > 0 && s.last() == c {
        trim_end_of(s.drop_last(), c)
    } else {
        s
    }
}

/// `str::trim_end_matches` with a character.
pub fn trim_end_char(s: &str, c: char) -> (r: String)
    ensures
        r@ == trim_end_of(s@, c),
{
    let v = chars_of(s);
    let mut n: usize = v.len();
    assert(v@.take(n as int) =~= v@);
    while n > 0 && v[n - 1] == c
        invariant
            n <= v@.len(),
            trim_end_of(v@, c) == trim_end_of(v@.take(n as int), c),
        decreases n,
    {
        assert(v@.take(n as int).drop_last() =~= v@.take(n - 1));
        n = n - 1;
    }
    let r = text_between(&v, 0, n);
    assert(r@ =~= v@.take(n as int));
    r
}

/// The Unicode lower-case form of a text.
pub uninterp spec fn unicode_lowercase(s: Seq<char>) -> Seq<char>;

/// `str::to_lowercase`: the Unicode lower-case form, which on ASCII text is
/// the ASCII one.
#[verifier::external_body]
pub(crate) fn lower_text(s: &str) -> (r: String)
    ensures
        r@ == unicode_lowercase(s@),
        s.is_ascii() ==> r@ == lowercase(s@),
{
    s.to_lowercase()
}

// ---------------------------------------------------------------------------
// Laws
// ---------------------------------------------------------------------------

/// Blanks, tabs and the ends of lines are white space, and no visible character of ASCII is.
pub proof fn white_space_is_told_apart(c: char)
    ensures
        is_space(' '),
        is_space('\t'),
        is_space('\n'),
        is_space('\r'),
        '!' <= c <= '~' ==> !is_space(c),
{
}

proof fn lemma_trim_start_drops(w: Seq<char>, s: Seq<char>)
    requires
        forall|k: int| 0 <= k < w.len() ==> is_space(#[trigger] w[k]),
    ensures
        trim_start(w + s) == trim_start(s),
    decreases w.len(),
{
    if w.len() == 0 {
        assert(w + s =~= s);
    } else {
        assert((w + s)[0] == w[0]);
        assert((w + s).subrange(1, (w + s).len() as int) =~= w.skip(1) + s);
        assert forall|k: int| 0 <= k < w.skip(1).len() implies is_space(#[trigger] w.skip(1)[k]) by {
            assert(w.skip(1)[k] == w[k + 1]);
        }
        lemma_trim_start_drops(w.skip(1), s);
    }
}

proof fn lemma_trim_end_drops(s: Seq<char>, w: Seq<char>)
    requires
        forall|k: int| 0 <= k < w.len() ==> is_space(#[trigger] w[k]),
    ensures
        trim_end(s + w) == trim_end(s),
    decreases w.len(),
{
    if w.len() == 0 {
        assert(s + w =~= s);
    } else {
        assert((s + w).last() == w[w.len() - 1]);
        assert((s + w).drop_last() =~= s + w.drop_last());
        assert forall|k: int| 0 <= k < w.drop_last().len() implies is_space(#[trigger] w.drop_last()[k]) by {
            assert(w.drop_last()[k] == w[k]);
        }
        lemma_trim_end_drops(s, w.drop_last());
    }
}

/// What is left of a text with white space around it is the text; of white space alone nothing
/// is left.
pub proof fn trimming_drops_what_is_around(before: Seq<char>, s: Seq<char>, after: Seq<char>)
    requires
        forall|k: int| 0 <= k < before.len() ==> is_space(#[trigger] before[k]),
        forall|k: int| 0 <= k < after.len() ==> is_space(#[trigger] after[k]),
    ensures
        is_trimmed(s) && s.len() > 0 ==> trim(before + s + after) == s,
        trim(before).len() == 0,
{
    lemma_trim_start_drops(before, s + after);
    lemma_trim_end_drops(s, after);
    assert(before + s + after =~= before + (s + after));
    if s.len() > 0 {
        assert((s + after)[0] == s[0]);
    }
    lemma_trim_start_drops(before, Seq::<char>::empty());
    assert(before + Seq::<char>::empty() =~= before);
}

/// A text starts with what stands in front and ends with what stands behind, and what starts or
/// ends so is made that way.
pub proof fn ends_of_texts(a: Seq<char>, b: Seq<char>)
    ensures
        has_prefix(a + b, a),
        has_suffix(a + b, b),
        has_prefix(a, b) ==> a == b + a.skip(b.len() as int),
        has_suffix(a, b) ==> a == a.take(a.len() - b.len()) + b,
        a.len() < b.len() ==> !has_prefix(a, b) && !has_suffix(a, b),
{
    assert((a + b).take(a.len() as int) =~= a);
    assert((a + b).skip((a + b).len() - b.len()) =~= b);
    if has_prefix(a, b) {
        assert(a =~= a.take(b.len() as int) + a.skip(b.len() as int));
    }
    if has_suffix(a, b) {
        assert(a =~= a.take(a.len() - b.len()) + a.skip(a.len() - b.len()));
    }
}

/// A text that is held stands somewhere, with something in front and something behind.
pub proof fn held_texts_stand_somewhere(s: Seq<char>, p: Seq<char>)
    ensures
        has_text(s, p) ==> exists|i: int| 0 <= i <= s.len() - p.len()
            && s == (#[trigger] s.take(i)) + p + s.skip(i + p.len()),
{
    if has_text(s, p) {
        let i = choose|i: int| occurs_at(s, p, i);
        assert(s =~= s.take(i) + s.subrange(i, i + p.len()) + s.skip(i + p.len()));
    }
}

/// Each capital becomes its small letter and every other character stays, in its place.
pub proof fn capitals_become_small(s: Seq<char>, i: int)
    ensures
        lowercase(s).len() == s.len(),
        0 <= i < s.len() && 'A' <= s[i] <= 'Z' ==> lowercase(s)[i] as int == s[i] as int + 32,
        0 <= i < s.len() && !('A' <= s[i] <= 'Z') ==> lowercase(s)[i] == s[i],
{
}

/// The lines of a text are what stands between the ends of its lines; the last may have its end
/// or not, and a carriage return before an end belongs to it.
pub proof fn lines_stand_between_their_ends(l: Seq<Seq<char>>)
    requires
        forall|k: int| 0 <= k < l.len() ==> !(#[trigger] l[k]).contains('\n'),
    ensures
        lines(join(l.push(Seq::<char>::empty()), seq!['\n'])) == Seq::new(l.len(), |i: int| if l[i].len() > 0
            && l[i].last() == '\r' { l[i].drop_last() } else { l[i] }),
        l.len() > 0 && l.last().len() > 0
            ==> lines(join(l, seq!['\n'])) == Seq::new((l.len() - 1) as nat, |i: int| if l[i].len() > 0
            && l[i].last() == '\r' { l[i].drop_last() } else { l[i] }).push(l.last()),
{
    let m = l.push(Seq::<char>::empty());
    assert forall|k: int| 0 <= k < m.len() implies !(#[trigger] m[k]).contains('\n') by {
        if k < l.len() {
            assert(m[k] == l[k]);
        }
    }
    split_of_join(m, '\n');
    let p = Seq::new(l.len(), |i: int| if l[i].len() > 0 && l[i].last() == '\r' { l[i].drop_last() } else { l[i] });
    assert(lines(join(m, seq!['\n'])) =~= p);
    if l.len() > 0 && l.last().len() > 0 {
        split_of_join(l, '\n');
        let q = Seq::new((l.len() - 1) as nat, |i: int| if l[i].len() > 0
            && l[i].last() == '\r' { l[i].drop_last() } else { l[i] });
        assert(lines(join(l, seq!['\n'])) =~= q.push(l.last()));
    }
}

/// The texts that are not empty stay in order.
pub proof fn filled_texts_stay_in_order(a: Seq<Seq<char>>, b: Seq<Seq<char>>)
    ensures
        filled_only(Seq::<Seq<char>>::empty()) == Seq::<Seq<char>>::empty(),
        filled_only(a + b) == filled_only(a) + filled_only(b),
    decreases b.len(),
{
    if b.len() == 0 {
        assert(a + b =~= a);
        assert(filled_only(a) + filled_only(b) =~= filled_only(a));
    } else {
        assert((a + b).drop_last() =~= a + b.drop_last());
        filled_texts_stay_in_order(a, b.drop_last());
        assert(filled_only(a + b) =~= filled_only(a) + filled_only(b));
    }
}

/// An empty text is left out and any other stays.
pub proof fn empty_texts_are_left_out(s: Seq<char>)
    ensures
        s.len() == 0 ==> filled_only(Seq::<Seq<char>>::empty().push(s)).len() == 0,
        s.len() > 0 ==> filled_only(Seq::<Seq<char>>::empty().push(s)) == seq![s],
{
    reveal_with_fuel(filled_only, 2);
    assert(Seq::<Seq<char>>::empty().push(s).drop_last() =~= Seq::<Seq<char>>::empty());
}

proof fn lemma_pieces_part(a: Seq<char>, c: char, b: Seq<char>)
    requires
        is_space(c),
    ensures
        space_pieces(a + seq![c] + b) == space_pieces(a) + space_pieces(b),
        space_pieces(b).len() >= 1,
    decreases b.len(),
{
    let s = a + seq![c] + b;
    if b.len() == 0 {
        assert(s.drop_last() =~= a);
        assert(s.last() == c);
        assert(space_pieces(s) =~= space_pieces(a) + space_pieces(b));
    } else {
        lemma_pieces_part(a, c, b.drop_last());
        assert(s.drop_last() =~= a + seq![c] + b.drop_last());
        assert(s.last() == b.last());
        assert(space_pieces(s) =~= space_pieces(a) + space_pieces(b));
    }
}

proof fn lemma_one_piece(w: Seq<char>)
    requires
        forall|k: int| 0 <= k < w.len() ==> !is_space(#[trigger] w[k]),
    ensures
        space_pieces(w) == seq![w],
    decreases w.len(),
{
    if w.len() > 0 {
        assert forall|k: int| 0 <= k < w.drop_last().len() implies !is_space(#[trigger] w.drop_last()[k]) by {
            assert(w.drop_last()[k] == w[k]);
        }
        lemma_one_piece(w.drop_last());
        assert(w.last() == w[w.len() - 1]);
        assert(w.drop_last().push(w.last()) =~= w);
        assert(space_pieces(w) =~= seq![w]);
    } else {
        assert(w =~= Seq::<char>::empty());
        assert(space_pieces(w) =~= seq![w]);
    }
}

/// The words on either side of white space are those of each side, a text without any is one
/// word, and an empty one has none.
pub proof fn words_stand_between_white_space(a: Seq<char>, c: char, b: Seq<char>, w: Seq<char>)
    ensures
        is_space(c) ==> words(a + seq![c] + b) == words(a) + words(b),
        words(Seq::<char>::empty()).len() == 0,
        w.len() > 0 && (forall|k: int| 0 <= k < w.len() ==> !is_space(#[trigger] w[k])) ==> words(w) == seq![w],
{
    if is_space(c) {
        lemma_pieces_part(a, c, b);
        filled_texts_stay_in_order(space_pieces(a), space_pieces(b));
    }
    lemma_one_piece(Seq::<char>::empty());
    reveal_with_fuel(filled_only, 2);
    assert(seq![Seq::<char>::empty()].drop_last() =~= Seq::<Seq<char>>::empty());
    if forall|k: int| 0 <= k < w.len() ==> !is_space(#[trigger] w[k]) {
        lemma_one_piece(w);
        assert(seq![w].drop_last() =~= Seq::<Seq<char>>::empty());
    }
}

/// A text is filled up with blanks behind it to the width, and a longer one stays.
pub proof fn short_texts_are_padded(s: Seq<char>, width: nat, i: int)
    ensures
        s.len() >= width ==> padded(s, width) == s,
        s.len() < width ==> padded(s, width).len() == width && has_prefix(padded(s, width), s)
            && (s.len() <= i < width ==> padded(s, width)[i] == ' '),
{
    if s.len() < width {
        assert(padded(s, width).take(s.len() as int) =~= s);
    }
}

/// A character at the end is dropped as often as it stands there.
pub proof fn trailing_characters_are_dropped(s: Seq<char>, c: char)
    ensures
        trim_end_of(s.push(c), c) == trim_end_of(s, c),
        s.len() > 0 && s.last() != c ==> trim_end_of(s, c) == s,
        trim_end_of(Seq::<char>::empty(), c).len() == 0,
{
    assert(s.push(c).drop_last() =~= s);
}

/// Each text gets what goes before and after it.
pub proof fn texts_are_wrapped_one_by_one(before: Seq<char>, l: Seq<Seq<char>>, after: Seq<char>, i: int)
    ensures
        wrapped(before, l, after).len() == l.len(),
        0 <= i < l.len() ==> wrapped(before, l, after)[i] == before + l[i] + after,
{
}

/// The view of a list is that of each text, in order.
pub proof fn texts_are_viewed_one_by_one(v: Seq<String>, i: int)
    ensures
        views(v).len() == v.len(),
        0 <= i < v.len() ==> views(v)[i] == v[i]@,
{
}

} // verus!
