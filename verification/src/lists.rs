//! What a list holds, and what a text holds.

use vstd::prelude::*;

use crate::text::{has_text, join, occurs_at};

verus! {

/// A joined list holds what one of its parts holds.
pub proof fn append_holds<T>(a: Seq<T>, b: Seq<T>, x: T)
    ensures
        (a + b).contains(x) == (a.contains(x) || b.contains(x)),
{
    if a.contains(x) {
        let i = choose|i: int| 0 <= i < a.len() && a[i] == x;
        assert((a + b)[i] == x);
    }
    if b.contains(x) {
        let i = choose|i: int| 0 <= i < b.len() && b[i] == x;
        assert((a + b)[a.len() + i] == x);
    }
    if (a + b).contains(x) {
        let i = choose|i: int| 0 <= i < (a + b).len() && (a + b)[i] == x;
        if i < a.len() {
            assert(a[i] == x);
        } else {
            assert(b[i - a.len()] == x);
        }
    }
}

/// A longer list holds what was added and what it held.
pub proof fn push_holds<T>(a: Seq<T>, y: T, x: T)
    ensures
        a.push(y).contains(x) == (a.contains(x) || x == y),
{
    if a.contains(x) {
        let i = choose|i: int| 0 <= i < a.len() && a[i] == x;
        assert(a.push(y)[i] == x);
    }
    assert(a.push(y)[a.len() as int] == y);
    if a.push(y).contains(x) {
        let i = choose|i: int| 0 <= i < a.push(y).len() && a.push(y)[i] == x;
        if i < a.len() {
            assert(a[i] == x);
        }
    }
}

/// A text stands within what is written around it.
pub proof fn text_is_within(a: Seq<char>, p: Seq<char>, b: Seq<char>)
    ensures
        has_text(a + p + b, p),
{
    assert((a + p + b).subrange(a.len() as int, (a.len() + p.len()) as int) =~= p);
    assert(occurs_at(a + p + b, p, a.len() as int));
}

/// What stands within a part stands within the whole.
pub proof fn part_is_within(a: Seq<char>, s: Seq<char>, b: Seq<char>, p: Seq<char>)
    requires
        has_text(s, p),
    ensures
        has_text(a + s + b, p),
{
    let i = choose|i: int| occurs_at(s, p, i);
    let w = a + s + b;
    assert(w.subrange(a.len() + i, a.len() + i + p.len()) =~= s.subrange(i, i + p.len()));
    assert(occurs_at(w, p, a.len() + i));
}

/// What stands within a text stands within every text that holds it.
pub proof fn within_is_transitive(f: Seq<char>, s: Seq<char>, p: Seq<char>)
    requires
        has_text(f, s),
        has_text(s, p),
    ensures
        has_text(f, p),
{
    let k = choose|k: int| occurs_at(f, s, k);
    let a = f.take(k);
    let b = f.skip(k + s.len());
    assert(f =~= a + s + b);
    part_is_within(a, s, b, p);
}

/// The line stands in the text, with the end of another line before it.
pub open spec fn has_line(text: Seq<char>, line: Seq<char>) -> bool {
    has_text(text, seq!['\n'] + line + seq!['\n'])
}

/// A joined list of two lists is the two joined, with a separator between them.
pub proof fn join_of_append(a: Seq<Seq<char>>, b: Seq<Seq<char>>, sep: Seq<char>)
    requires
        a.len() > 0,
        b.len() > 0,
    ensures
        join(a + b, sep) == join(a, sep) + sep + join(b, sep),
    decreases b.len(),
{
    assert((a + b).drop_last() =~= a + b.drop_last());
    if b.len() == 1 {
        assert(a + b.drop_last() =~= a);
        assert((a + b).last() == b[0]);
    } else {
        join_of_append(a, b.drop_last(), sep);
        assert(join(a + b, sep) =~= join(a, sep) + sep + join(b, sep));
    }
}

/// What stands before the part `k` of a joined list.
pub open spec fn joined_before(l: Seq<Seq<char>>, k: int, sep: Seq<char>) -> Seq<char> {
    if k == 0 {
        Seq::<char>::empty()
    } else {
        join(l.take(k), sep) + sep
    }
}

/// What stands behind the part `k` of a joined list.
pub open spec fn joined_behind(l: Seq<Seq<char>>, k: int, sep: Seq<char>) -> Seq<char> {
    if k == l.len() - 1 {
        Seq::<char>::empty()
    } else {
        sep + join(l.skip(k + 1), sep)
    }
}

/// A joined list is one of its parts with what stands around it.
pub proof fn join_around(l: Seq<Seq<char>>, k: int, sep: Seq<char>)
    requires
        0 <= k < l.len(),
    ensures
        join(l, sep) == joined_before(l, k, sep) + l[k] + joined_behind(l, k, sep),
{
    let a = l.take(k);
    let one = Seq::<Seq<char>>::empty().push(l[k]);
    let b = l.skip(k + 1);
    assert(l =~= a + one + b);
    assert(join(one, sep) == l[k]);
    if k > 0 {
        join_of_append(a, one, sep);
    } else {
        assert(a + one =~= one);
    }
    if k < l.len() - 1 {
        join_of_append(a + one, b, sep);
    } else {
        assert(a + one + b =~= a + one);
    }
    assert(join(l, sep) =~= joined_before(l, k, sep) + l[k] + joined_behind(l, k, sep));
}

proof fn lemma_between(p: Seq<char>, sep: Seq<char>, x: Seq<char>, q: Seq<char>)
    ensures
        has_text(p + sep + x + sep + q, sep + x + sep),
{
    text_is_within(p, sep + x + sep, q);
    assert(p + (sep + x + sep) + q =~= p + sep + x + sep + q);
}

/// Every part of a joined list stands between two separators, where one stands
/// at either end.
pub proof fn parts_stand_apart(l: Seq<Seq<char>>, i: int, sep: Seq<char>)
    requires
        0 <= i < l.len(),
    ensures
        has_text(sep + join(l, sep) + sep, sep + l[i] + sep),
{
    join_around(l, i, sep);
    let e = Seq::<char>::empty();
    let x = l[i];
    let whole = sep + join(l, sep) + sep;
    let p = if i == 0 {
        e
    } else {
        sep + join(l.take(i), sep)
    };
    let q = if i == l.len() - 1 {
        e
    } else {
        join(l.skip(i + 1), sep) + sep
    };
    lemma_between(p, sep, x, q);
    assert(p + sep =~= sep + joined_before(l, i, sep));
    assert(sep + q =~= joined_behind(l, i, sep) + sep);
    lemma_whole(p, sep, x, q, joined_before(l, i, sep), joined_behind(l, i, sep));
}

proof fn lemma_whole(p: Seq<char>, sep: Seq<char>, x: Seq<char>, q: Seq<char>, b: Seq<char>, a: Seq<char>)
    requires
        p + sep == sep + b,
        sep + q == a + sep,
    ensures
        p + sep + x + sep + q == sep + (b + x + a) + sep,
{
    assert(p + sep + x + sep + q =~= (p + sep) + x + (sep + q));
    assert(sep + (b + x + a) + sep =~= (sep + b) + x + (a + sep));
}

/// A joined list tells its parts apart: another part in one place makes another
/// text.
pub proof fn join_tells_parts_apart(l: Seq<Seq<char>>, k: int, x: Seq<char>, sep: Seq<char>)
    requires
        0 <= k < l.len(),
        x != l[k],
    ensures
        join(l.update(k, x), sep) != join(l, sep),
{
    let m = l.update(k, x);
    join_around(l, k, sep);
    join_around(m, k, sep);
    assert(m.take(k) =~= l.take(k));
    assert(m.skip(k + 1) =~= l.skip(k + 1));
    let a = joined_before(l, k, sep);
    let b = joined_behind(l, k, sep);
    if a + x + b == a + l[k] + b {
        assert((a + x + b).len() == a.len() + x.len() + b.len());
        assert((a + l[k] + b).len() == a.len() + l[k].len() + b.len());
        assert(x.len() == l[k].len());
        assert forall|i: int| 0 <= i < x.len() implies x[i] == l[k][i] by {
            assert((a + x + b)[a.len() + i] == x[i]);
            assert((a + l[k] + b)[a.len() + i] == l[k][i]);
        }
        assert(x =~= l[k]);
    }
}

} // verus!
