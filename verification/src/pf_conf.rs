//! The packet filter's main file, brought up to date line by line.
//!
//! Lines are compared whole, without surrounding white space: `anchor "aifw"`
//! is not found within `nat-anchor "aifw"`.

use vstd::prelude::*;
use vstd::string::*;

use crate::text::{
    cat2, is_space, is_trimmed, join, join_text, lines, lines_of, list_contains, push_line, same, split,
    split_of_join, split_pieces, strip_cr, trim, trim_end, trim_is_idempotent, trim_start, trimmed, views,
};

verus! {

/// Translations are looked up here.
pub const NAT_ANCHOR: &'static str = "nat-anchor \"aifw-nat\"";

/// Redirections are looked up here.
pub const RDR_ANCHOR: &'static str = "rdr-anchor \"aifw-nat\"";

/// Translations between address families are looked up here.
pub const NAT_FILTER_ANCHOR: &'static str = "anchor \"aifw-nat\"";

/// Filter rules are looked up here.
pub const FILTER_ANCHOR: &'static str = "anchor \"aifw\"";

/// Rules that route by policy are looked up here.
pub const PBR_ANCHOR: &'static str = "anchor \"aifw-pbr\"";

/// Rules against leaks between links are looked up here.
pub const LEAK_ANCHOR: &'static str = "anchor \"aifw-mwan-leak\"";

/// Rules that answer on the link of the request are looked up here.
pub const REPLY_ANCHOR: &'static str = "anchor \"aifw-mwan-reply\"";

/// Lets neighbours find each other over IPv6.
pub const ND_RULE: &'static str =
    "pass quick inet6 proto icmp6 icmp6-type { routersol, routeradv, neighbrsol, neighbradv }";

/// The lines without surrounding white space.
pub open spec fn bare(ls: Seq<Seq<char>>) -> Seq<Seq<char>> {
    ls.map_values(|l: Seq<char>| trim(l))
}

/// Which lines the file has.
#[derive(Clone, Copy, Debug)]
pub struct Present {
    pub rdr: bool,
    pub nat_filter: bool,
    pub nd: bool,
    pub pbr: bool,
    pub leak: bool,
    pub reply: bool,
}

/// Which lines there are among the bare lines `t`.
pub open spec fn present(t: Seq<Seq<char>>) -> Present {
    Present {
        rdr: t.contains(RDR_ANCHOR@),
        nat_filter: t.contains(NAT_FILTER_ANCHOR@),
        nd: t.contains(ND_RULE@),
        pbr: t.contains(PBR_ANCHOR@),
        leak: t.contains(LEAK_ANCHOR@),
        reply: t.contains(REPLY_ANCHOR@),
    }
}

/// A place where filter rules are looked up.
pub open spec fn is_filter(t: Seq<char>) -> bool {
    t == FILTER_ANCHOR@ || t == PBR_ANCHOR@ || t == LEAK_ANCHOR@ || t == REPLY_ANCHOR@
}

/// There is such a place among the bare lines.
pub open spec fn has_filter(t: Seq<Seq<char>>) -> bool {
    exists|i: int| 0 <= i < t.len() && is_filter(#[trigger] t[i])
}

/// `line` where `cond` holds, nothing elsewhere.
#[verifier::opaque]
pub open spec fn only_if(cond: bool, line: Seq<char>) -> Seq<Seq<char>> {
    if cond {
        Seq::<Seq<char>>::empty().push(line)
    } else {
        Seq::<Seq<char>>::empty()
    }
}

/// What goes before a line: the rule for neighbours before the first place
/// for filter rules, as those may block for good; then the places that are
/// missing before the main one. `filter_seen` and `main_seen` say whether
/// there was such a place before.
pub open spec fn inserted_before(p: Present, filter_seen: bool, main_seen: bool, t: Seq<char>) -> Seq<Seq<char>> {
    let main = t == FILTER_ANCHOR@ && !main_seen;
    only_if(!p.nd && is_filter(t) && !filter_seen, ND_RULE@) + only_if(main && !p.pbr, PBR_ANCHOR@) + only_if(
        main && !p.leak,
        LEAK_ANCHOR@,
    ) + only_if(main && !p.reply, REPLY_ANCHOR@)
}

/// What goes behind a line.
pub open spec fn inserted_behind(p: Present, main_seen: bool, t: Seq<char>) -> Seq<Seq<char>> {
    only_if(t == NAT_ANCHOR@ && !p.rdr, RDR_ANCHOR@) + only_if(
        t == FILTER_ANCHOR@ && !main_seen && !p.nat_filter,
        NAT_FILTER_ANCHOR@,
    )
}

/// A line with what is missing around it.
pub open spec fn around(p: Present, filter_seen: bool, main_seen: bool, line: Seq<char>) -> Seq<Seq<char>> {
    inserted_before(p, filter_seen, main_seen, trim(line)) + Seq::<Seq<char>>::empty().push(line) + inserted_behind(
        p,
        main_seen,
        trim(line),
    )
}

/// The lines with what is missing.
pub open spec fn completed(p: Present, ls: Seq<Seq<char>>) -> Seq<Seq<char>>
    decreases ls.len(),
{
    if ls.len() == 0 {
        Seq::<Seq<char>>::empty()
    } else {
        let init = ls.drop_last();
        completed(p, init) + around(p, has_filter(bare(init)), bare(init).contains(FILTER_ANCHOR@), ls.last())
    }
}

/// The lines of the file with what is missing.
pub open spec fn patched_lines(content: Seq<char>) -> Seq<Seq<char>> {
    let ls = lines(content);
    completed(present(bare(ls)), ls)
}

/// The file with what is missing: nothing where nothing is.
pub open spec fn patched(content: Seq<char>) -> Option<Seq<char>> {
    if patched_lines(content).len() == lines(content).len() {
        None
    } else {
        Some(join(patched_lines(content), "\n"@) + "\n"@)
    }
}

fn push_if(out: &mut Vec<String>, cond: bool, line: &str)
    ensures
        views(final(out)@) == views(old(out)@) + only_if(cond, line@),
{
    reveal(only_if);
    let ghost before = views(out@);
    if cond {
        push_line(out, line.to_owned());
        assert(views(out@) =~= before + only_if(cond, line@));
    } else {
        assert(before =~= before + only_if(cond, line@));
    }
}

fn filter_line(t: &str) -> (r: bool)
    ensures
        r == is_filter(t@),
{
    same(t, FILTER_ANCHOR) || same(t, PBR_ANCHOR) || same(t, LEAK_ANCHOR) || same(t, REPLY_ANCHOR)
}

proof fn lemma_append(b: Seq<Seq<char>>, w: Seq<Seq<char>>, x: Seq<Seq<char>>, y: Seq<Seq<char>>, z: Seq<Seq<char>>)
    ensures
        b + w + x + y + z == b + (w + x + y + z),
        b + w + x + y == b + (w + x + y),
        b + w + x == b + (w + x),
{
    assert(b + w + x + y + z =~= b + (w + x + y + z));
    assert(b + w + x + y =~= b + (w + x + y));
    assert(b + w + x =~= b + (w + x));
}

fn push_before(out: &mut Vec<String>, p: Present, filter_seen: bool, main_seen: bool, t: &str)
    ensures
        views(final(out)@) == views(old(out)@) + inserted_before(p, filter_seen, main_seen, t@),
{
    let main = same(t, FILTER_ANCHOR) && !main_seen;
    let nd = !p.nd && filter_line(t) && !filter_seen;
    proof {
        lemma_append(
            views(out@),
            only_if(nd, ND_RULE@),
            only_if(main && !p.pbr, PBR_ANCHOR@),
            only_if(main && !p.leak, LEAK_ANCHOR@),
            only_if(main && !p.reply, REPLY_ANCHOR@),
        );
    }
    push_if(out, nd, ND_RULE);
    push_if(out, main && !p.pbr, PBR_ANCHOR);
    push_if(out, main && !p.leak, LEAK_ANCHOR);
    push_if(out, main && !p.reply, REPLY_ANCHOR);
}

fn push_behind(out: &mut Vec<String>, p: Present, main_seen: bool, t: &str)
    ensures
        views(final(out)@) == views(old(out)@) + inserted_behind(p, main_seen, t@),
{
    let main = same(t, FILTER_ANCHOR) && !main_seen;
    let rdr = same(t, NAT_ANCHOR) && !p.rdr;
    proof {
        let none = Seq::<Seq<char>>::empty();
        lemma_append(
            views(out@),
            only_if(rdr, RDR_ANCHOR@),
            only_if(main && !p.nat_filter, NAT_FILTER_ANCHOR@),
            none,
            none,
        );
    }
    push_if(out, rdr, RDR_ANCHOR);
    push_if(out, main && !p.nat_filter, NAT_FILTER_ANCHOR);
}

/// Adds a line with what is missing around it.
fn push_around(out: &mut Vec<String>, p: Present, filter_seen: bool, main_seen: bool, t: &str, line: &str)
    requires
        t@ == trim(line@),
    ensures
        views(final(out)@) == views(old(out)@) + around(p, filter_seen, main_seen, line@),
{
    proof {
        let one = Seq::<Seq<char>>::empty().push(line@);
        let before = inserted_before(p, filter_seen, main_seen, t@);
        lemma_append(views(out@), before, one, inserted_behind(p, main_seen, t@), Seq::<Seq<char>>::empty());
        assert((views(out@) + before).push(line@) =~= views(out@) + before + one);
    }
    push_before(out, p, filter_seen, main_seen, t);
    push_line(out, line.to_owned());
    push_behind(out, p, main_seen, t);
}

proof fn lemma_seen(seen: Seq<Seq<char>>, t: Seq<char>)
    ensures
        has_filter(seen.push(t)) == (has_filter(seen) || is_filter(t)),
        forall|x: Seq<char>| #[trigger] seen.push(t).contains(x) == (seen.contains(x) || t == x),
{
    let next = seen.push(t);
    assert(next[seen.len() as int] == t);
    if has_filter(seen) {
        let j = choose|j: int| 0 <= j < seen.len() && is_filter(#[trigger] seen[j]);
        assert(is_filter(next[j]));
    }
    if has_filter(next) && !is_filter(t) {
        let j = choose|j: int| 0 <= j < next.len() && is_filter(#[trigger] next[j]);
        assert(is_filter(seen[j]));
    }
    assert forall|x: Seq<char>| #[trigger] next.contains(x) == (seen.contains(x) || t == x) by {
        if seen.contains(x) {
            let j = choose|j: int| 0 <= j < seen.len() && seen[j] == x;
            assert(next[j] == x);
        }
        if next.contains(x) && t != x {
            let j = choose|j: int| 0 <= j < next.len() && next[j] == x;
            assert(seen[j] == x);
        }
    }
}

fn find_present(t: &Vec<String>) -> (p: Present)
    ensures
        p == present(views(t@)),
{
    Present {
        rdr: list_contains(t, RDR_ANCHOR),
        nat_filter: list_contains(t, NAT_FILTER_ANCHOR),
        nd: list_contains(t, ND_RULE),
        pbr: list_contains(t, PBR_ANCHOR),
        leak: list_contains(t, LEAK_ANCHOR),
        reply: list_contains(t, REPLY_ANCHOR),
    }
}

/// Adds to the packet filter's file what it lacks: the redirections behind
/// the translations, the places of the several links before the filter rules,
/// the translations between address families behind them, and the rule for
/// neighbours before all of those. The result is the new file, where it
/// differs.
pub fn patch_pf_conf(content: &str) -> (r: Option<String>)
    ensures
        crate::kv::option_view(r) == patched(content@),
{
    let ls = lines_of(content);
    let mut t: Vec<String> = Vec::new();
    let mut k: usize = 0;
    let ghost all = views(ls@);
    while k < ls.len()
        invariant
            k <= ls@.len(),
            all == views(ls@),
            views(t@) =~= bare(all.take(k as int)),
        decreases ls.len() - k,
    {
        push_line(&mut t, trimmed(ls[k].as_str()));
        k = k + 1;
    }
    assert(all.take(ls@.len() as int) =~= all);
    assert(views(t@).len() == t@.len());
    let p = find_present(&t);
    let mut out: Vec<String> = Vec::new();
    let mut filter_seen = false;
    let mut main_seen = false;
    let mut i: usize = 0;
    assert(views(out@) =~= completed(p, all.take(0)));
    while i < ls.len()
        invariant
            i <= ls@.len(),
            all == views(ls@),
            t@.len() == ls@.len(),
            views(t@) == bare(all),
            filter_seen == has_filter(bare(all.take(i as int))),
            main_seen == bare(all.take(i as int)).contains(FILTER_ANCHOR@),
            views(out@) == completed(p, all.take(i as int)),
        decreases ls.len() - i,
    {
        let ghost seen = bare(all.take(i as int));
        let ghost line = all[i as int];
        proof {
            assert(all.take(i + 1).drop_last() =~= all.take(i as int));
            assert(all.take(i + 1).last() == line);
            assert(views(t@)[i as int] == trim(line));
            assert(bare(all.take(i + 1)) =~= seen.push(trim(line)));
            lemma_seen(seen, trim(line));
        }
        let one = t[i].as_str();
        push_around(&mut out, p, filter_seen, main_seen, one, ls[i].as_str());
        filter_seen = filter_seen || filter_line(one);
        main_seen = main_seen || same(one, FILTER_ANCHOR);
        i = i + 1;
    }
    assert(views(out@).len() == out@.len());
    if out.len() == ls.len() {
        return None;
    }
    let text = join_text(&out, "\n");
    Some(cat2(text.as_str(), "\n"))
}

// ---------------------------------------------------------------------------
// Putting the new file in place
// ---------------------------------------------------------------------------

/// What is done next with the packet filter's file.
#[derive(Clone, Debug)]
pub enum FileStep {
    /// Write the text beside the file and have it checked; the answer goes to
    /// [`checked_file`].
    Check(String),
    /// Put the text in the place of the file, and load it.
    Install(String),
    /// Leave the file as it is.
    Leave,
}

/// The file after a step: only an installation changes it.
pub open spec fn file_after(content: Seq<char>, step: FileStep) -> Seq<char> {
    match step {
        FileStep::Install(t) => t@,
        _ => content,
    }
}

/// The first step for a file: what it lacks is added to a copy, which is checked.
pub fn ensure_rdr_anchor(content: &str) -> (step: FileStep)
    ensures
        match patched(content@) {
            Some(t) => step matches FileStep::Check(c) && c@ == t,
            None => step is Leave,
        },
        file_after(content@, step) == content@,
{
    match patch_pf_conf(content) {
        Some(t) => FileStep::Check(t),
        None => FileStep::Leave,
    }
}

/// The step after the copy was checked. One that is not valid, or that could
/// not be checked, never takes the place of the file.
pub fn checked_file(copy: String, valid: bool) -> (step: FileStep)
    ensures
        step == (if valid {
            FileStep::Install(copy)
        } else {
            FileStep::Leave
        }),
        forall|content: Seq<char>| !valid ==> #[trigger] file_after(content, step) == content,
{
    if valid {
        FileStep::Install(copy)
    } else {
        FileStep::Leave
    }
}

// ---------------------------------------------------------------------------
// Laws
// ---------------------------------------------------------------------------

/// A line that could stand in the file as it is.
spec fn is_clean(s: Seq<char>) -> bool {
    is_trimmed(s) && !s.contains('\n')
}

proof fn lemma_nat_anchor()
    ensures
        NAT_ANCHOR@.len() == 21,
        is_clean(NAT_ANCHOR@),
        NAT_ANCHOR@[0] == 'n',
{
    reveal_strlit("nat-anchor \"aifw-nat\"");
    let s = NAT_ANCHOR@;
    assert(s[0] == 'n');
    assert(s.last() == '"');
    assert forall|i: int| 0 <= i < s.len() implies s[i] != '\n' by {}
}

proof fn lemma_rdr_anchor()
    ensures
        RDR_ANCHOR@.len() == 21,
        is_clean(RDR_ANCHOR@),
        RDR_ANCHOR@[0] == 'r',
{
    reveal_strlit("rdr-anchor \"aifw-nat\"");
    let s = RDR_ANCHOR@;
    assert(s[0] == 'r');
    assert(s.last() == '"');
    assert forall|i: int| 0 <= i < s.len() implies s[i] != '\n' by {}
}

proof fn lemma_nat_filter_anchor()
    ensures
        NAT_FILTER_ANCHOR@.len() == 17,
        is_clean(NAT_FILTER_ANCHOR@),
        NAT_FILTER_ANCHOR@[13] == 'n',
{
    reveal_strlit("anchor \"aifw-nat\"");
    let s = NAT_FILTER_ANCHOR@;
    assert(s[0] == 'a');
    assert(s.last() == '"');
    assert forall|i: int| 0 <= i < s.len() implies s[i] != '\n' by {}
}

proof fn lemma_filter_anchor()
    ensures
        FILTER_ANCHOR@.len() == 13,
        is_clean(FILTER_ANCHOR@),
{
    reveal_strlit("anchor \"aifw\"");
    let s = FILTER_ANCHOR@;
    assert(s[0] == 'a');
    assert(s.last() == '"');
    assert forall|i: int| 0 <= i < s.len() implies s[i] != '\n' by {}
}

proof fn lemma_pbr_anchor()
    ensures
        PBR_ANCHOR@.len() == 17,
        is_clean(PBR_ANCHOR@),
        PBR_ANCHOR@[13] == 'p',
{
    reveal_strlit("anchor \"aifw-pbr\"");
    let s = PBR_ANCHOR@;
    assert(s[0] == 'a');
    assert(s.last() == '"');
    assert forall|i: int| 0 <= i < s.len() implies s[i] != '\n' by {}
}

proof fn lemma_leak_anchor()
    ensures
        LEAK_ANCHOR@.len() == 23,
        is_clean(LEAK_ANCHOR@),
{
    reveal_strlit("anchor \"aifw-mwan-leak\"");
    let s = LEAK_ANCHOR@;
    assert(s[0] == 'a');
    assert(s.last() == '"');
    assert forall|i: int| 0 <= i < s.len() implies s[i] != '\n' by {}
}

proof fn lemma_reply_anchor()
    ensures
        REPLY_ANCHOR@.len() == 24,
        is_clean(REPLY_ANCHOR@),
{
    reveal_strlit("anchor \"aifw-mwan-reply\"");
    let s = REPLY_ANCHOR@;
    assert(s[0] == 'a');
    assert(s.last() == '"');
    assert forall|i: int| 0 <= i < s.len() implies s[i] != '\n' by {}
}

proof fn lemma_nd_rule()
    ensures
        ND_RULE@.len() == 88,
        is_clean(ND_RULE@),
{
    reveal_strlit("pass quick inet6 proto icmp6 icmp6-type { routersol, routeradv, neighbrsol, neighbradv }");
    let s = ND_RULE@;
    assert(s[0] == 'p');
    assert(s.last() == '}');
    assert forall|i: int| 0 <= i < s.len() implies s[i] != '\n' by {}
}

/// Everything that was put in is a clean line.
proof fn lemma_literals()
    ensures
        is_clean(NAT_ANCHOR@),
        is_clean(RDR_ANCHOR@),
        is_clean(NAT_FILTER_ANCHOR@),
        is_clean(FILTER_ANCHOR@),
        is_clean(PBR_ANCHOR@),
        is_clean(LEAK_ANCHOR@),
        is_clean(REPLY_ANCHOR@),
        is_clean(ND_RULE@),
        NAT_ANCHOR@ != RDR_ANCHOR@,
        NAT_ANCHOR@ != NAT_FILTER_ANCHOR@,
        NAT_ANCHOR@ != PBR_ANCHOR@,
        NAT_ANCHOR@ != LEAK_ANCHOR@,
        NAT_ANCHOR@ != REPLY_ANCHOR@,
        NAT_ANCHOR@ != ND_RULE@,
        FILTER_ANCHOR@ != RDR_ANCHOR@,
        FILTER_ANCHOR@ != NAT_FILTER_ANCHOR@,
        FILTER_ANCHOR@ != PBR_ANCHOR@,
        FILTER_ANCHOR@ != LEAK_ANCHOR@,
        FILTER_ANCHOR@ != REPLY_ANCHOR@,
        FILTER_ANCHOR@ != ND_RULE@,
        !is_filter(RDR_ANCHOR@),
        !is_filter(NAT_FILTER_ANCHOR@),
{
    lemma_nat_anchor();
    lemma_rdr_anchor();
    lemma_nat_filter_anchor();
    lemma_filter_anchor();
    lemma_pbr_anchor();
    lemma_leak_anchor();
    lemma_reply_anchor();
    lemma_nd_rule();
    assert(NAT_ANCHOR@[0] != RDR_ANCHOR@[0]);
    assert(NAT_FILTER_ANCHOR@[13] != PBR_ANCHOR@[13]);
}

proof fn lemma_bare_only_if(cond: bool, line: Seq<char>, x: Seq<char>)
    requires
        is_clean(line),
    ensures
        bare(only_if(cond, line)).contains(x) == (cond && x == line),
        forall|i: int| 0 <= i < only_if(cond, line).len() ==> !(#[trigger] only_if(cond, line)[i]).contains('\n'),
{
    reveal(only_if);
    trim_is_idempotent(line);
    if cond {
        assert(bare(only_if(cond, line))[0] == line);
    }
}

proof fn lemma_bare_append(a: Seq<Seq<char>>, b: Seq<Seq<char>>, x: Seq<char>)
    ensures
        bare(a + b).contains(x) == (bare(a).contains(x) || bare(b).contains(x)),
{
    assert(bare(a + b) =~= bare(a) + bare(b));
    let all = bare(a) + bare(b);
    if bare(a).contains(x) {
        let i = choose|i: int| 0 <= i < bare(a).len() && bare(a)[i] == x;
        assert(all[i] == x);
    }
    if bare(b).contains(x) {
        let i = choose|i: int| 0 <= i < bare(b).len() && bare(b)[i] == x;
        assert(all[bare(a).len() + i] == x);
    }
    if all.contains(x) {
        let i = choose|i: int| 0 <= i < all.len() && all[i] == x;
        if i < bare(a).len() {
            assert(bare(a)[i] == x);
        } else {
            assert(bare(b)[i - bare(a).len()] == x);
        }
    }
}

/// Which bare lines there are around a line.
proof fn lemma_around(p: Present, filter_seen: bool, main_seen: bool, line: Seq<char>, x: Seq<char>)
    ensures
        ({
            let t = trim(line);
            let main = t == FILTER_ANCHOR@ && !main_seen;
            bare(around(p, filter_seen, main_seen, line)).contains(x) == {
                ||| x == t
                ||| !p.nd && is_filter(t) && !filter_seen && x == ND_RULE@
                ||| main && !p.pbr && x == PBR_ANCHOR@
                ||| main && !p.leak && x == LEAK_ANCHOR@
                ||| main && !p.reply && x == REPLY_ANCHOR@
                ||| t == NAT_ANCHOR@ && !p.rdr && x == RDR_ANCHOR@
                ||| main && !p.nat_filter && x == NAT_FILTER_ANCHOR@
            }
        }),
{
    let t = trim(line);
    let main = t == FILTER_ANCHOR@ && !main_seen;
    let nd = !p.nd && is_filter(t) && !filter_seen;
    let rdr = t == NAT_ANCHOR@ && !p.rdr;
    let a = only_if(nd, ND_RULE@);
    let b = only_if(main && !p.pbr, PBR_ANCHOR@);
    let c = only_if(main && !p.leak, LEAK_ANCHOR@);
    let d = only_if(main && !p.reply, REPLY_ANCHOR@);
    let e = only_if(rdr, RDR_ANCHOR@);
    let f = only_if(main && !p.nat_filter, NAT_FILTER_ANCHOR@);
    let one = Seq::<Seq<char>>::empty().push(line);
    lemma_literals();
    lemma_bare_only_if(nd, ND_RULE@, x);
    lemma_bare_only_if(main && !p.pbr, PBR_ANCHOR@, x);
    lemma_bare_only_if(main && !p.leak, LEAK_ANCHOR@, x);
    lemma_bare_only_if(main && !p.reply, REPLY_ANCHOR@, x);
    lemma_bare_only_if(rdr, RDR_ANCHOR@, x);
    lemma_bare_only_if(main && !p.nat_filter, NAT_FILTER_ANCHOR@, x);
    lemma_bare_append(a, b, x);
    lemma_bare_append(a + b, c, x);
    lemma_bare_append(a + b + c, d, x);
    lemma_bare_append(e, f, x);
    lemma_bare_append(a + b + c + d, one, x);
    lemma_bare_append(a + b + c + d + one, e + f, x);
    assert(bare(one).len() == 1 && bare(one)[0] == t);
    assert(bare(one).contains(x) == (x == t));
}

/// Which bare lines there are once the file is complete.
proof fn lemma_completed(p: Present, ls: Seq<Seq<char>>)
    ensures
        ({
            let t = bare(ls);
            let q = bare(completed(p, ls));
            let main = t.contains(FILTER_ANCHOR@);
            &&& forall|x: Seq<char>| #[trigger]
                q.contains(x) ==> t.contains(x) || x == ND_RULE@ || x == RDR_ANCHOR@ || (main && (x == PBR_ANCHOR@ || x
                    == LEAK_ANCHOR@ || x == REPLY_ANCHOR@ || x == NAT_FILTER_ANCHOR@))
            &&& forall|x: Seq<char>| #[trigger] t.contains(x) ==> q.contains(x)
            &&& t.contains(NAT_ANCHOR@) && !p.rdr ==> q.contains(RDR_ANCHOR@)
            &&& has_filter(t) && !p.nd ==> q.contains(ND_RULE@)
            &&& main && !p.pbr ==> q.contains(PBR_ANCHOR@)
            &&& main && !p.leak ==> q.contains(LEAK_ANCHOR@)
            &&& main && !p.reply ==> q.contains(REPLY_ANCHOR@)
            &&& main && !p.nat_filter ==> q.contains(NAT_FILTER_ANCHOR@)
        }),
    decreases ls.len(),
{
    if ls.len() == 0 {
        assert(bare(ls) =~= Seq::<Seq<char>>::empty());
        assert(bare(completed(p, ls)) =~= Seq::<Seq<char>>::empty());
    } else {
        let init = ls.drop_last();
        let line = ls.last();
        let seen = bare(init);
        let fs = has_filter(seen);
        let ms = seen.contains(FILTER_ANCHOR@);
        lemma_completed(p, init);
        assert(bare(ls) =~= seen.push(trim(line)));
        lemma_seen(seen, trim(line));
        assert forall|x: Seq<char>| true implies #[trigger] bare(completed(p, ls)).contains(x) == (bare(
            completed(p, init),
        ).contains(x) || bare(around(p, fs, ms, line)).contains(x)) by {
            lemma_bare_append(completed(p, init), around(p, fs, ms, line), x);
        }
        lemma_around(p, fs, ms, line, RDR_ANCHOR@);
        lemma_around(p, fs, ms, line, ND_RULE@);
        lemma_around(p, fs, ms, line, PBR_ANCHOR@);
        lemma_around(p, fs, ms, line, LEAK_ANCHOR@);
        lemma_around(p, fs, ms, line, REPLY_ANCHOR@);
        lemma_around(p, fs, ms, line, NAT_FILTER_ANCHOR@);
        let t = bare(ls);
        let q = bare(completed(p, ls));
        let main = t.contains(FILTER_ANCHOR@);
        assert forall|x: Seq<char>| #[trigger] q.contains(x) implies t.contains(x) || x == ND_RULE@ || x == RDR_ANCHOR@ || (
        main && (x == PBR_ANCHOR@ || x == LEAK_ANCHOR@ || x == REPLY_ANCHOR@ || x == NAT_FILTER_ANCHOR@)) by {
            lemma_around(p, fs, ms, line, x);
        }
        assert forall|x: Seq<char>| #[trigger] t.contains(x) implies q.contains(x) by {
            lemma_around(p, fs, ms, line, x);
        }
    }
}

/// Nothing is missing around the bare line `t`.
spec fn is_settled(p: Present, t: Seq<char>) -> bool {
    &&& t == NAT_ANCHOR@ ==> p.rdr
    &&& is_filter(t) ==> p.nd
    &&& t == FILTER_ANCHOR@ ==> p.pbr && p.leak && p.reply && p.nat_filter
}

proof fn lemma_settled(p: Present, ls: Seq<Seq<char>>)
    requires
        forall|i: int| 0 <= i < ls.len() ==> is_settled(p, trim(#[trigger] ls[i])),
    ensures
        completed(p, ls) == ls,
    decreases ls.len(),
{
    if ls.len() > 0 {
        let init = ls.drop_last();
        assert forall|i: int| 0 <= i < init.len() implies is_settled(p, trim(#[trigger] init[i])) by {
            assert(init[i] == ls[i]);
        }
        lemma_settled(p, init);
        assert(is_settled(p, trim(ls[ls.len() - 1])));
        reveal(only_if);
        let fs = has_filter(bare(init));
        let ms = bare(init).contains(FILTER_ANCHOR@);
        assert(inserted_before(p, fs, ms, trim(ls.last())) =~= Seq::<Seq<char>>::empty());
        assert(inserted_behind(p, ms, trim(ls.last())) =~= Seq::<Seq<char>>::empty());
        assert(completed(p, ls) =~= ls);
    } else {
        assert(completed(p, ls) =~= ls);
    }
}

/// Lines that were completed are complete.
proof fn lemma_complete_is_settled(ls: Seq<Seq<char>>, x: Seq<char>)
    requires
        bare(completed(present(bare(ls)), ls)).contains(x),
    ensures
        is_settled(present(bare(completed(present(bare(ls)), ls))), x),
{
    let t = bare(ls);
    lemma_completed(present(t), ls);
    lemma_literals();
    if is_filter(x) && x != ND_RULE@ {
        if t.contains(x) {
            let i = choose|i: int| 0 <= i < t.len() && t[i] == x;
            assert(is_filter(t[i]));
        } else {
            let i = choose|i: int| 0 <= i < t.len() && t[i] == FILTER_ANCHOR@;
            assert(is_filter(t[i]));
        }
        assert(has_filter(t));
    }
}

proof fn lemma_one_line(p: Present, ls: Seq<Seq<char>>)
    requires
        forall|i: int| 0 <= i < ls.len() ==> !(#[trigger] ls[i]).contains('\n'),
    ensures
        forall|i: int| 0 <= i < completed(p, ls).len() ==> !(#[trigger] completed(p, ls)[i]).contains('\n'),
    decreases ls.len(),
{
    if ls.len() > 0 {
        let init = ls.drop_last();
        assert forall|i: int| 0 <= i < init.len() implies !(#[trigger] init[i]).contains('\n') by {
            assert(init[i] == ls[i]);
        }
        lemma_one_line(p, init);
        let fs = has_filter(bare(init));
        let ms = bare(init).contains(FILTER_ANCHOR@);
        lemma_around_one_line(p, fs, ms, ls.last());
        let more = around(p, fs, ms, ls.last());
        assert forall|i: int| 0 <= i < completed(p, ls).len() implies !(#[trigger] completed(p, ls)[i]).contains('\n') by {
            let n = completed(p, init).len();
            if i < n {
                assert(completed(p, ls)[i] == completed(p, init)[i]);
            } else {
                assert(completed(p, ls)[i] == more[i - n]);
            }
        }
    }
}

spec fn no_breaks(l: Seq<Seq<char>>) -> bool {
    forall|i: int| 0 <= i < l.len() ==> !(#[trigger] l[i]).contains('\n')
}

proof fn lemma_no_breaks_append(a: Seq<Seq<char>>, b: Seq<Seq<char>>)
    requires
        no_breaks(a),
        no_breaks(b),
    ensures
        no_breaks(a + b),
{
    assert forall|i: int| 0 <= i < (a + b).len() implies !(#[trigger] (a + b)[i]).contains('\n') by {
        if i < a.len() {
            assert((a + b)[i] == a[i]);
        } else {
            assert((a + b)[i] == b[i - a.len()]);
        }
    }
}

proof fn lemma_around_one_line(p: Present, filter_seen: bool, main_seen: bool, line: Seq<char>)
    requires
        !line.contains('\n'),
    ensures
        no_breaks(around(p, filter_seen, main_seen, line)),
{
    let t = trim(line);
    let main = t == FILTER_ANCHOR@ && !main_seen;
    let nd = !p.nd && is_filter(t) && !filter_seen;
    let rdr = t == NAT_ANCHOR@ && !p.rdr;
    let a = only_if(nd, ND_RULE@);
    let b = only_if(main && !p.pbr, PBR_ANCHOR@);
    let c = only_if(main && !p.leak, LEAK_ANCHOR@);
    let d = only_if(main && !p.reply, REPLY_ANCHOR@);
    let e = only_if(rdr, RDR_ANCHOR@);
    let f = only_if(main && !p.nat_filter, NAT_FILTER_ANCHOR@);
    let one = Seq::<Seq<char>>::empty().push(line);
    lemma_literals();
    lemma_bare_only_if(nd, ND_RULE@, t);
    lemma_bare_only_if(main && !p.pbr, PBR_ANCHOR@, t);
    lemma_bare_only_if(main && !p.leak, LEAK_ANCHOR@, t);
    lemma_bare_only_if(main && !p.reply, REPLY_ANCHOR@, t);
    lemma_bare_only_if(rdr, RDR_ANCHOR@, t);
    lemma_bare_only_if(main && !p.nat_filter, NAT_FILTER_ANCHOR@, t);
    lemma_no_breaks_append(a, b);
    lemma_no_breaks_append(a + b, c);
    lemma_no_breaks_append(a + b + c, d);
    lemma_no_breaks_append(e, f);
    assert(no_breaks(one));
    lemma_no_breaks_append(a + b + c + d, one);
    lemma_no_breaks_append(a + b + c + d + one, e + f);
}

proof fn lemma_lines_one_line(s: Seq<char>)
    ensures
        no_breaks(lines(s)),
{
    split_pieces(s, '\n');
    let pieces = split(s, '\n');
    assert forall|i: int| 0 <= i < lines(s).len() implies !(#[trigger] lines(s)[i]).contains('\n') by {
        assert(!pieces[i].contains('\n'));
        let l = lines(s)[i];
        if l.contains('\n') {
            let k = choose|k: int| 0 <= k < l.len() && l[k] == '\n';
            assert(pieces[i][k] == '\n');
        }
    }
}

proof fn lemma_trim_start_cr(s: Seq<char>)
    requires
        s.len() > 0,
    ensures
        trim_start(s).len() > 0 ==> trim_start(s.drop_last()) == trim_start(s).drop_last() || (trim_start(s).len() == 1
            && trim_start(s.drop_last()).len() == 0),
        trim_start(s).len() == 0 ==> trim_start(s.drop_last()).len() == 0,
        trim_start(s).len() > 0 ==> trim_start(s).last() == s.last(),
    decreases s.len(),
{
    if is_space(s[0]) {
        let rest = s.subrange(1, s.len() as int);
        if rest.len() > 0 {
            lemma_trim_start_cr(rest);
            assert(s.drop_last().subrange(1, s.len() - 1) =~= rest.drop_last());
        } else {
            assert(s.drop_last().len() == 0);
        }
    }
}

proof fn lemma_trim_cr(s: Seq<char>)
    ensures
        trim(strip_cr(s)) == trim(s),
{
    if s.len() > 0 && s.last() == '\r' {
        lemma_trim_start_cr(s);
        let a = trim_start(s);
        let b = trim_start(s.drop_last());
        if a.len() == 0 {
            assert(a =~= b);
        } else {
            assert(is_space(a.last()));
            if a.len() == 1 {
                assert(a.drop_last() =~= b);
            }
            assert(trim_end(a) == trim_end(a.drop_last()));
        }
    }
}

/// The lines of a text that was put together from lines are those lines, but
/// for carriage returns at their ends.
proof fn lemma_lines_of_joined(l: Seq<Seq<char>>)
    requires
        l.len() > 0,
        no_breaks(l),
    ensures
        lines(join(l, seq!['\n']) + seq!['\n']) == l.map_values(|x: Seq<char>| strip_cr(x)),
{
    let e = Seq::<char>::empty();
    let parts = l.push(e);
    assert(parts.drop_last() =~= l);
    assert(join(parts, seq!['\n']) =~= join(l, seq!['\n']) + seq!['\n']);
    assert forall|i: int| 0 <= i < parts.len() implies !(#[trigger] parts[i]).contains('\n') by {
        if i < l.len() {
            assert(parts[i] == l[i]);
        }
    }
    split_of_join(parts, '\n');
    assert(lines(join(l, seq!['\n']) + seq!['\n']) =~= l.map_values(|x: Seq<char>| strip_cr(x)));
}

/// A file that was completed is left alone from then on: nothing is added
/// twice, however often the server starts.
pub proof fn patched_file_is_left_alone(content: Seq<char>)
    requires
        patched(content) is Some,
    ensures
        patched(patched(content)->0) is None,
{
    let ls = lines(content);
    let l = patched_lines(content);
    let p = present(bare(ls));
    assert("\n"@ =~= seq!['\n']) by {
        reveal_strlit("\n");
    }
    if ls.len() == 0 {
        assert(l.len() == 0);
    }
    lemma_grows(p, ls);
    lemma_lines_one_line(content);
    lemma_one_line(p, ls);
    lemma_lines_of_joined(l);
    let text = patched(content)->0;
    let again = lines(text);
    assert(bare(again) =~= bare(l)) by {
        assert forall|i: int| 0 <= i < l.len() implies bare(again)[i] == #[trigger] bare(l)[i] by {
            lemma_trim_cr(l[i]);
        }
    }
    assert forall|i: int| 0 <= i < again.len() implies is_settled(present(bare(again)), trim(#[trigger] again[i])) by {
        assert(bare(l)[i] == trim(again[i]));
        assert(bare(l).contains(trim(again[i])));
        lemma_complete_is_settled(ls, trim(again[i]));
    }
    lemma_settled(present(bare(again)), again);
}

/// `b` has the lines of `a` in their order, and others between them.
pub open spec fn keeps(a: Seq<Seq<char>>, b: Seq<Seq<char>>) -> bool
    decreases a.len(),
{
    a.len() == 0 || exists|k: int| 0 <= k < b.len() && #[trigger] b[k] == a.last() && keeps(a.drop_last(), b.take(k))
}

proof fn lemma_keeps_more(a: Seq<Seq<char>>, b: Seq<Seq<char>>, c: Seq<Seq<char>>)
    requires
        keeps(a, b),
    ensures
        keeps(a, b + c),
{
    if a.len() > 0 {
        let k = choose|k: int| 0 <= k < b.len() && #[trigger] b[k] == a.last() && keeps(a.drop_last(), b.take(k));
        assert((b + c)[k] == a.last());
        assert((b + c).take(k) =~= b.take(k));
    }
}

proof fn lemma_completed_keeps(p: Present, ls: Seq<Seq<char>>)
    ensures
        keeps(ls, completed(p, ls)),
    decreases ls.len(),
{
    if ls.len() > 0 {
        let init = ls.drop_last();
        let fs = has_filter(bare(init));
        let ms = bare(init).contains(FILTER_ANCHOR@);
        let before = inserted_before(p, fs, ms, trim(ls.last()));
        lemma_completed_keeps(p, init);
        lemma_keeps_more(init, completed(p, init), before);
        let k = (completed(p, init) + before).len() as int;
        assert(completed(p, ls)[k] == ls.last());
        assert(completed(p, ls).take(k) =~= completed(p, init) + before);
    }
}

/// No line of the file is lost or moved: what is missing goes between them.
pub proof fn patching_keeps_every_line(content: Seq<char>)
    ensures
        keeps(lines(content), patched_lines(content)),
{
    lemma_completed_keeps(present(bare(lines(content))), lines(content));
}

/// How often `x` stands among the lines.
pub open spec fn count_of(l: Seq<Seq<char>>, x: Seq<char>) -> nat
    decreases l.len(),
{
    if l.len() == 0 {
        0
    } else if l.last() == x {
        count_of(l.drop_last(), x) + 1
    } else {
        count_of(l.drop_last(), x)
    }
}

proof fn lemma_count_append(a: Seq<Seq<char>>, b: Seq<Seq<char>>, x: Seq<char>)
    ensures
        count_of(a + b, x) == count_of(a, x) + count_of(b, x),
    decreases b.len(),
{
    if b.len() == 0 {
        assert(a + b =~= a);
    } else {
        assert((a + b).drop_last() =~= a + b.drop_last());
        lemma_count_append(a, b.drop_last(), x);
    }
}

proof fn lemma_count_absent(l: Seq<Seq<char>>, x: Seq<char>)
    requires
        !l.contains(x),
    ensures
        count_of(l, x) == 0,
    decreases l.len(),
{
    if l.len() > 0 {
        assert(l[l.len() - 1] != x);
        if l.drop_last().contains(x) {
            let i = choose|i: int| 0 <= i < l.drop_last().len() && l.drop_last()[i] == x;
            assert(l[i] == x);
        }
        lemma_count_absent(l.drop_last(), x);
    }
}

/// `x` is none of the lines that are missing.
spec fn is_not_missing(p: Present, x: Seq<char>) -> bool {
    &&& x == ND_RULE@ ==> p.nd
    &&& x == PBR_ANCHOR@ ==> p.pbr
    &&& x == LEAK_ANCHOR@ ==> p.leak
    &&& x == REPLY_ANCHOR@ ==> p.reply
    &&& x == RDR_ANCHOR@ ==> p.rdr
    &&& x == NAT_FILTER_ANCHOR@ ==> p.nat_filter
}

proof fn lemma_inserted_were_missing(p: Present, filter_seen: bool, main_seen: bool, t: Seq<char>, x: Seq<char>)
    requires
        is_not_missing(p, x),
    ensures
        !bare(inserted_before(p, filter_seen, main_seen, t)).contains(x),
        !bare(inserted_behind(p, main_seen, t)).contains(x),
{
    let main = t == FILTER_ANCHOR@ && !main_seen;
    let nd = !p.nd && is_filter(t) && !filter_seen;
    let rdr = t == NAT_ANCHOR@ && !p.rdr;
    let a = only_if(nd, ND_RULE@);
    let b = only_if(main && !p.pbr, PBR_ANCHOR@);
    let c = only_if(main && !p.leak, LEAK_ANCHOR@);
    let d = only_if(main && !p.reply, REPLY_ANCHOR@);
    lemma_literals();
    lemma_bare_only_if(nd, ND_RULE@, x);
    lemma_bare_only_if(main && !p.pbr, PBR_ANCHOR@, x);
    lemma_bare_only_if(main && !p.leak, LEAK_ANCHOR@, x);
    lemma_bare_only_if(main && !p.reply, REPLY_ANCHOR@, x);
    lemma_bare_only_if(rdr, RDR_ANCHOR@, x);
    lemma_bare_only_if(main && !p.nat_filter, NAT_FILTER_ANCHOR@, x);
    lemma_bare_append(a, b, x);
    lemma_bare_append(a + b, c, x);
    lemma_bare_append(a + b + c, d, x);
    lemma_bare_append(only_if(rdr, RDR_ANCHOR@), only_if(main && !p.nat_filter, NAT_FILTER_ANCHOR@), x);
}

proof fn lemma_count_completed(p: Present, ls: Seq<Seq<char>>, x: Seq<char>)
    requires
        is_not_missing(p, x),
    ensures
        count_of(bare(completed(p, ls)), x) == count_of(bare(ls), x),
    decreases ls.len(),
{
    if ls.len() == 0 {
        assert(bare(completed(p, ls)) =~= bare(ls));
    } else {
        let init = ls.drop_last();
        let t = trim(ls.last());
        let fs = has_filter(bare(init));
        let ms = bare(init).contains(FILTER_ANCHOR@);
        let done = bare(completed(p, init));
        let before = bare(inserted_before(p, fs, ms, t));
        let one = Seq::<Seq<char>>::empty().push(t);
        let behind = bare(inserted_behind(p, ms, t));
        lemma_count_completed(p, init, x);
        lemma_inserted_were_missing(p, fs, ms, t, x);
        lemma_count_absent(before, x);
        lemma_count_absent(behind, x);
        assert(bare(completed(p, ls)) =~= done + before + one + behind);
        lemma_count_append(done, before, x);
        lemma_count_append(done + before, one, x);
        lemma_count_append(done + before + one, behind, x);
        assert(bare(ls) =~= bare(init) + one);
        lemma_count_append(bare(init), one, x);
    }
}

/// Each line that is added is absent from the file: a line that the file has,
/// white space around it aside, stands there as often afterwards.
pub proof fn added_lines_were_absent(content: Seq<char>, x: Seq<char>)
    ensures
        bare(lines(content)).contains(x) ==> count_of(bare(patched_lines(content)), x) == count_of(
            bare(lines(content)),
            x,
        ),
        count_of(bare(patched_lines(content)), x) > count_of(bare(lines(content)), x) ==> !bare(
            lines(content),
        ).contains(x),
{
    let ls = lines(content);
    if bare(ls).contains(x) {
        lemma_count_completed(present(bare(ls)), ls, x);
    }
}

/// Only whole lines count: a file in which no line is one of the places, but
/// for white space around it, is left alone, whatever its lines hold.
pub proof fn other_lines_do_not_count(content: Seq<char>)
    requires
        forall|i: int|
            0 <= i < lines(content).len() ==> trim(#[trigger] lines(content)[i]) != NAT_ANCHOR@ && !is_filter(
                trim(lines(content)[i]),
            ),
    ensures
        patched(content) is None,
{
    lemma_settled(present(bare(lines(content))), lines(content));
}

/// Completing a file only adds lines.
proof fn lemma_grows(p: Present, ls: Seq<Seq<char>>)
    ensures
        completed(p, ls).len() >= ls.len(),
    decreases ls.len(),
{
    if ls.len() > 0 {
        lemma_grows(p, ls.drop_last());
    }
}

/// The file after the server has looked at it once: completed where the check
/// accepts that.
pub open spec fn file_after_start(content: Seq<char>, valid: bool) -> Seq<char> {
    match patched(content) {
        Some(t) => if valid {
            t
        } else {
            content
        },
        None => content,
    }
}

/// A completed file that the check does not accept leaves the file as it was,
/// and once a file was completed the next start changes nothing.
pub proof fn anchors_are_added_once(content: Seq<char>, valid: bool)
    ensures
        file_after_start(content, false) == content,
        file_after_start(file_after_start(content, true), valid) == file_after_start(content, true),
{
    if patched(content) is Some {
        patched_file_is_left_alone(content);
    }
}

proof fn lemma_anchors_differ()
    ensures
        NAT_ANCHOR@ != FILTER_ANCHOR@,
        NAT_ANCHOR@ != PBR_ANCHOR@,
        NAT_ANCHOR@ != LEAK_ANCHOR@,
        NAT_ANCHOR@ != REPLY_ANCHOR@,
        FILTER_ANCHOR@ != PBR_ANCHOR@,
        FILTER_ANCHOR@ != LEAK_ANCHOR@,
        FILTER_ANCHOR@ != REPLY_ANCHOR@,
{
    reveal_strlit("nat-anchor \"aifw-nat\"");
    reveal_strlit("anchor \"aifw\"");
    reveal_strlit("anchor \"aifw-pbr\"");
    reveal_strlit("anchor \"aifw-mwan-leak\"");
    reveal_strlit("anchor \"aifw-mwan-reply\"");
    assert(NAT_ANCHOR@.len() == 21);
    assert(FILTER_ANCHOR@.len() == 13);
    assert(PBR_ANCHOR@.len() == 17);
    assert(LEAK_ANCHOR@.len() == 23);
    assert(REPLY_ANCHOR@.len() == 24);
    assert(NAT_ANCHOR@[0] == 'n' && FILTER_ANCHOR@[0] == 'a');
    assert(PBR_ANCHOR@[0] == 'a' && LEAK_ANCHOR@[0] == 'a' && REPLY_ANCHOR@[0] == 'a');
}

/// Where the anchor of the rules first stands, what is missing of the neighbour rule, of routing
/// by policy, of the leaks and of the replies comes before it, in this order, and the filter
/// of the translations behind it.
pub proof fn main_anchor_gets_its_company(p: Present, a: Seq<Seq<char>>, line: Seq<char>)
    requires
        trim(line) == "anchor \"aifw\""@,
        forall|k: int| 0 <= k < a.len() ==> !is_filter(trim(#[trigger] a[k])),
    ensures
        completed(p, a.push(line)) == completed(p,
            a) + (if !p.nd { seq!["pass quick inet6 proto icmp6 icmp6-type { routersol, routeradv, neighbrsol, neighbradv }"@] } else { Seq::<Seq<char>>::empty() }) + (if !p.pbr { seq!["anchor \"aifw-pbr\""@] } else { Seq::<Seq<char>>::empty() }) + (if !p.leak { seq!["anchor \"aifw-mwan-leak\""@] } else { Seq::<Seq<char>>::empty() }) + (if !p.reply { seq!["anchor \"aifw-mwan-reply\""@] } else { Seq::<Seq<char>>::empty() }) + seq![line] + (if !p.nat_filter { seq!["anchor \"aifw-nat\""@] } else { Seq::<Seq<char>>::empty() }),
{
    assert(a.push(line).drop_last() =~= a);
    lemma_anchors_differ();
    reveal(only_if);
    assert forall|k: int| 0 <= k < bare(a).len() implies !is_filter(#[trigger] bare(a)[k]) by {
        assert(bare(a)[k] == trim(a[k]));
    }
    if bare(a).contains(FILTER_ANCHOR@) {
        let k = choose|k: int| 0 <= k < bare(a).len() && bare(a)[k] == FILTER_ANCHOR@;
        assert(is_filter(bare(a)[k]));
    }
    let l = completed(p, a) + around(p, has_filter(bare(a)), bare(a).contains(FILTER_ANCHOR@), line);
    assert(completed(p, a.push(line)) == l);
    assert(only_if(false, RDR_ANCHOR@) + only_if(!p.nat_filter, NAT_FILTER_ANCHOR@) =~= only_if(!p.nat_filter,
        NAT_FILTER_ANCHOR@));
    assert(l =~= completed(p, a) + only_if(!p.nd, ND_RULE@) + only_if(!p.pbr, PBR_ANCHOR@) + only_if(!p.leak,
        LEAK_ANCHOR@)
        + only_if(!p.reply, REPLY_ANCHOR@) + seq![line] + only_if(!p.nat_filter, NAT_FILTER_ANCHOR@));
    assert(only_if(!p.nd,
        ND_RULE@) =~= (if !p.nd { seq!["pass quick inet6 proto icmp6 icmp6-type { routersol, routeradv, neighbrsol, neighbradv }"@] } else { Seq::<Seq<char>>::empty() }));
    assert(only_if(!p.pbr,
        PBR_ANCHOR@) =~= (if !p.pbr { seq!["anchor \"aifw-pbr\""@] } else { Seq::<Seq<char>>::empty() }));
    assert(only_if(!p.leak,
        LEAK_ANCHOR@) =~= (if !p.leak { seq!["anchor \"aifw-mwan-leak\""@] } else { Seq::<Seq<char>>::empty() }));
    assert(only_if(!p.reply,
        REPLY_ANCHOR@) =~= (if !p.reply { seq!["anchor \"aifw-mwan-reply\""@] } else { Seq::<Seq<char>>::empty() }));
    assert(only_if(!p.nat_filter,
        NAT_FILTER_ANCHOR@) =~= (if !p.nat_filter { seq!["anchor \"aifw-nat\""@] } else { Seq::<Seq<char>>::empty() }));
}

/// Behind every anchor of the translations comes the one of the redirects where it is missing.
pub proof fn translation_anchor_gets_its_redirects(p: Present, a: Seq<Seq<char>>, line: Seq<char>)
    requires
        trim(line) == "nat-anchor \"aifw-nat\""@,
    ensures
        completed(p, a.push(line)) == completed(p,
            a) + seq![line] + (if !p.rdr { seq!["rdr-anchor \"aifw-nat\""@] } else { Seq::<Seq<char>>::empty() }),
{
    assert(a.push(line).drop_last() =~= a);
    lemma_anchors_differ();
    reveal(only_if);
    let e = Seq::<Seq<char>>::empty();
    assert(inserted_before(p, has_filter(bare(a)), bare(a).contains(FILTER_ANCHOR@), trim(line)) =~= e);
    assert(inserted_behind(p, bare(a).contains(FILTER_ANCHOR@),
        trim(line)) =~= (if !p.rdr { seq!["rdr-anchor \"aifw-nat\""@] } else { Seq::<Seq<char>>::empty() }));
    assert(e + e.push(line) =~= seq![line]);
    assert(completed(p, a.push(line)) =~= completed(p,
        a) + seq![line] + (if !p.rdr { seq!["rdr-anchor \"aifw-nat\""@] } else { Seq::<Seq<char>>::empty() }));
}

/// Where another filter comes first of all, the neighbour rule comes before it where it is
/// missing, and nothing else; a line that is neither an anchor of the translations nor a
/// filter stays alone, and so does the anchor of the rules when it comes again.
pub proof fn other_anchors_get_the_neighbour_rule(p: Present, a: Seq<Seq<char>>, line: Seq<char>)
    ensures
        (trim(line) == "anchor \"aifw-pbr\""@ || trim(line) == "anchor \"aifw-mwan-leak\""@
            || trim(line) == "anchor \"aifw-mwan-reply\""@) && (forall|k: int| 0 <= k < a.len()
            ==> !is_filter(trim(#[trigger] a[k])))
            ==> completed(p, a.push(line)) == completed(p,
            a) + (if !p.nd { seq!["pass quick inet6 proto icmp6 icmp6-type { routersol, routeradv, neighbrsol, neighbradv }"@] } else { Seq::<Seq<char>>::empty() }) + seq![line],
        trim(line) != "nat-anchor \"aifw-nat\""@ && !is_filter(trim(line))
            ==> completed(p, a.push(line)) == completed(p, a).push(line),
        trim(line) == "anchor \"aifw\""@ && bare(a).contains("anchor \"aifw\""@)
            ==> completed(p, a.push(line)) == completed(p, a).push(line),
{
    assert(a.push(line).drop_last() =~= a);
    lemma_anchors_differ();
    reveal(only_if);
    let e = Seq::<Seq<char>>::empty();
    let before = inserted_before(p, has_filter(bare(a)), bare(a).contains(FILTER_ANCHOR@), trim(line));
    let behind = inserted_behind(p, bare(a).contains(FILTER_ANCHOR@), trim(line));
    assert(completed(p, a.push(line)) =~= completed(p, a) + before + seq![line] + behind);
    if trim(line) != NAT_ANCHOR@ && !is_filter(trim(line)) {
        assert(before =~= e);
        assert(behind =~= e);
        assert(completed(p, a.push(line)) =~= completed(p, a).push(line));
    }
    if trim(line) == FILTER_ANCHOR@ && bare(a).contains(FILTER_ANCHOR@) {
        let k = choose|k: int| 0 <= k < bare(a).len() && bare(a)[k] == FILTER_ANCHOR@;
        assert(is_filter(bare(a)[k]));
        assert(before =~= e);
        assert(behind =~= e);
        assert(completed(p, a.push(line)) =~= completed(p, a).push(line));
    }
    if (trim(line) == PBR_ANCHOR@ || trim(line) == LEAK_ANCHOR@ || trim(line) == REPLY_ANCHOR@) && (forall|k: int|
        0 <= k < a.len() ==> !is_filter(trim(#[trigger] a[k]))) {
        assert forall|k: int| 0 <= k < bare(a).len() implies !is_filter(#[trigger] bare(a)[k]) by {
            assert(bare(a)[k] == trim(a[k]));
        }
        assert(before =~= (if !p.nd { seq!["pass quick inet6 proto icmp6 icmp6-type { routersol, routeradv, neighbrsol, neighbradv }"@] } else { Seq::<Seq<char>>::empty() }));
        assert(behind =~= e);
        assert(completed(p, a.push(line)) =~= completed(p,
            a) + (if !p.nd { seq!["pass quick inet6 proto icmp6 icmp6-type { routersol, routeradv, neighbrsol, neighbradv }"@] } else { Seq::<Seq<char>>::empty() }) + seq![line]);
    }
}

/// A line is present where some line reads so, without the white space around it.
pub proof fn present_lines_are_found(ls: Seq<Seq<char>>, i: int)
    ensures
        0 <= i < ls.len() && trim(ls[i]) == "rdr-anchor \"aifw-nat\""@ ==> present(bare(ls)).rdr,
        (forall|k: int| 0 <= k < ls.len() ==> trim(#[trigger] ls[k]) != "rdr-anchor \"aifw-nat\""@)
            ==> !present(bare(ls)).rdr,
        0 <= i < ls.len() && trim(ls[i]) == "anchor \"aifw-nat\""@ ==> present(bare(ls)).nat_filter,
        (forall|k: int| 0 <= k < ls.len() ==> trim(#[trigger] ls[k]) != "anchor \"aifw-nat\""@)
            ==> !present(bare(ls)).nat_filter,
        0 <= i < ls.len()
            && trim(ls[i])
            == "pass quick inet6 proto icmp6 icmp6-type { routersol, routeradv, neighbrsol, neighbradv }"@
            ==> present(bare(ls)).nd,
        (forall|k: int| 0 <= k < ls.len()
            ==> trim(#[trigger] ls[k])
            != "pass quick inet6 proto icmp6 icmp6-type { routersol, routeradv, neighbrsol, neighbradv }"@)
            ==> !present(bare(ls)).nd,
        0 <= i < ls.len() && trim(ls[i]) == "anchor \"aifw-pbr\""@ ==> present(bare(ls)).pbr,
        (forall|k: int| 0 <= k < ls.len() ==> trim(#[trigger] ls[k]) != "anchor \"aifw-pbr\""@)
            ==> !present(bare(ls)).pbr,
        0 <= i < ls.len() && trim(ls[i]) == "anchor \"aifw-mwan-leak\""@ ==> present(bare(ls)).leak,
        (forall|k: int| 0 <= k < ls.len() ==> trim(#[trigger] ls[k]) != "anchor \"aifw-mwan-leak\""@)
            ==> !present(bare(ls)).leak,
        0 <= i < ls.len() && trim(ls[i]) == "anchor \"aifw-mwan-reply\""@ ==> present(bare(ls)).reply,
        (forall|k: int| 0 <= k < ls.len() ==> trim(#[trigger] ls[k]) != "anchor \"aifw-mwan-reply\""@)
            ==> !present(bare(ls)).reply,
{
    if 0 <= i < ls.len() {
        assert(bare(ls)[i] == trim(ls[i]));
        assert(bare(ls).contains(bare(ls)[i]));
    }
    assert forall|x: Seq<char>| #[trigger] bare(ls).contains(x) implies exists|k: int| 0 <= k < ls.len()
        && trim(#[trigger] ls[k]) == x by {
        let k = choose|k: int| 0 <= k < bare(ls).len() && bare(ls)[k] == x;
        assert(bare(ls)[k] == trim(ls[k]));
    }
}

/// A file is completed where lines are added, and then it is its lines, each with its end.
pub proof fn patched_text_is_its_lines(content: Seq<char>)
    ensures
        patched(content) is Some <==> patched_lines(content).len() != lines(content).len(),
        patched(content) matches Some(t) ==> t == join(patched_lines(content), seq!['\n']) + seq!['\n'],
        patched_lines(content) == completed(present(bare(lines(content))), lines(content)),
        file_after_start(content, false) == content,
        patched(content) matches Some(t) ==> file_after_start(content, true) == t,
        patched(content) is None ==> file_after_start(content, true) == content,
{
    reveal_strlit("\n");
    assert("\n"@ =~= seq!['\n']);
}

/// A file that is installed replaces the content, and no other step changes it.
pub proof fn only_installing_changes_the_file(content: Seq<char>, step: FileStep)
    ensures
        step matches FileStep::Install(t) ==> file_after(content, step) == t@,
        !(step is Install) ==> file_after(content, step) == content,
{
}

} // verus!
