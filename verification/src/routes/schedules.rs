//! Times of day at which rules hold.

use vstd::prelude::*;
use vstd::string::*;

use crate::identifiers::said;
use crate::number::{dec, is_digit, parse_u8, parsed, parsed_of_dec, value_of_dec};
use crate::status::{MessageResponse, Status};
use crate::text::{
    cat3, join, join_text, same, split, split_of_join, split_text, trim, trim_is_idempotent, trimmed, views,
};

verus! {

/// A schedule.
#[derive(Clone, Debug)]
pub struct Schedule {
    pub id: String,
    pub name: String,
    pub description: Option<String>,
    /// Such as `08:00-12:00,13:00-17:00`.
    pub time_ranges: String,
    /// Such as `mon,tue,wed,thu,fri`.
    pub days_of_week: String,
    pub enabled: bool,
    pub created_at: String,
}

/// A list, as one text or as several.
#[derive(Clone, Debug)]
pub enum StringOrVec {
    Single(String),
    Multiple(Vec<String>),
}

impl StringOrVec {
    /// The list as one text.
    pub open spec fn text(self) -> Seq<char> {
        match self {
            StringOrVec::Single(s) => s@,
            StringOrVec::Multiple(v) => join(views(v@), ","@),
        }
    }

    /// The list as one text.
    pub fn into_string(self) -> (r: String)
        ensures
            r@ == self.text(),
    {
        match self {
            StringOrVec::Single(s) => s,
            StringOrVec::Multiple(v) => join_text(&v, ","),
        }
    }
}

/// A schedule that is to be made or changed.
#[derive(Clone, Debug)]
pub struct CreateScheduleRequest {
    pub name: String,
    pub description: Option<String>,
    pub time_ranges: StringOrVec,
    pub days_of_week: Option<StringOrVec>,
    pub enabled: Option<bool>,
}

/// A time of day: hours and minutes.
pub open spec fn is_time(s: Seq<char>) -> bool {
    let hm = split(s, ':');
    &&& hm.len() == 2
    &&& parsed(hm[0], 255) is Some && parsed(hm[0], 255)->0 <= 23
    &&& parsed(hm[1], 255) is Some && parsed(hm[1], 255)->0 <= 59
}

/// Two times of day with a dash between them.
pub open spec fn is_range(s: Seq<char>) -> bool {
    let ends = split(trim(s), '-');
    ends.len() == 2 && is_time(ends[0]) && is_time(ends[1])
}

/// Ranges with commas between them.
pub open spec fn are_ranges(s: Seq<char>) -> bool {
    forall|i: int| 0 <= i < split(s, ',').len() ==> is_range(#[trigger] split(s, ',')[i])
}

fn time_ok(s: &str) -> (r: bool)
    ensures
        r == is_time(s@),
{
    let hm = split_text(s, ':');
    assert(views(hm@).len() == hm@.len());
    if hm.len() != 2 {
        return false;
    }
    assert(views(hm@)[0] == hm@[0]@ && views(hm@)[1] == hm@[1]@);
    let h: u8 = match parse_u8(hm[0].as_str()) {
        Some(h) => h,
        None => {
            return false;
        },
    };
    let m: u8 = match parse_u8(hm[1].as_str()) {
        Some(m) => m,
        None => {
            return false;
        },
    };
    h <= 23 && m <= 59
}

fn range_ok(s: &str) -> (r: bool)
    ensures
        r == is_range(s@),
{
    let t = trimmed(s);
    let ends = split_text(t.as_str(), '-');
    assert(views(ends@).len() == ends@.len());
    if ends.len() != 2 {
        return false;
    }
    assert(views(ends@)[0] == ends@[0]@ && views(ends@)[1] == ends@[1]@);
    time_ok(ends[0].as_str()) && time_ok(ends[1].as_str())
}

/// Whether a text holds ranges of times.
pub fn validate_time_ranges(s: &str) -> (r: bool)
    ensures
        r == are_ranges(s@),
{
    let v = split_text(s, ',');
    assert(views(v@).len() == v@.len());
    let mut i: usize = 0;
    while i < v.len()
        invariant
            i <= v@.len(),
            views(v@) == split(s@, ','),
            views(v@).len() == v@.len(),
            forall|k: int| 0 <= k < i ==> is_range(#[trigger] split(s@, ',')[k]),
        decreases v.len() - i,
    {
        assert(split(s@, ',')[i as int] == v@[i as int]@);
        if !range_ok(v[i].as_str()) {
            return false;
        }
        i = i + 1;
    }
    true
}

/// A day of the week.
pub open spec fn is_day(s: Seq<char>) -> bool {
    s == "mon"@ || s == "tue"@ || s == "wed"@ || s == "thu"@ || s == "fri"@ || s == "sat"@ || s == "sun"@
}

/// Days with commas between them.
pub open spec fn are_days(s: Seq<char>) -> bool {
    forall|i: int| 0 <= i < split(s, ',').len() ==> is_day(trim(#[trigger] split(s, ',')[i]))
}

/// Whether a text holds days of the week.
pub fn validate_days_of_week(s: &str) -> (r: bool)
    ensures
        r == are_days(s@),
{
    let v = split_text(s, ',');
    assert(views(v@).len() == v@.len());
    let mut i: usize = 0;
    while i < v.len()
        invariant
            i <= v@.len(),
            views(v@) == split(s@, ','),
            views(v@).len() == v@.len(),
            forall|k: int| 0 <= k < i ==> is_day(trim(#[trigger] split(s@, ',')[k])),
        decreases v.len() - i,
    {
        assert(split(s@, ',')[i as int] == v@[i as int]@);
        let t = trimmed(v[i].as_str());
        let d = t.as_str();
        if !(same(d, "mon") || same(d, "tue") || same(d, "wed") || same(d, "thu") || same(d, "fri") || same(d, "sat")
            || same(d, "sun")) {
            return false;
        }
        i = i + 1;
    }
    true
}

/// The days of a request: every day where it gives none.
pub open spec fn days_of(q: CreateScheduleRequest) -> Seq<char> {
    match q.days_of_week {
        Some(d) => d.text(),
        None => "mon,tue,wed,thu,fri,sat,sun"@,
    }
}

/// The request gives times and days.
pub open spec fn is_valid(q: CreateScheduleRequest) -> bool {
    are_ranges(q.time_ranges.text()) && are_days(days_of(q))
}

/// `s` is the schedule of the request.
pub open spec fn is_schedule_of(s: Schedule, id: String, q: CreateScheduleRequest, created_at: String) -> bool {
    &&& s.id == id
    &&& s.name == q.name
    &&& s.description == q.description
    &&& s.time_ranges@ == q.time_ranges.text()
    &&& s.days_of_week@ == days_of(q)
    &&& s.enabled == (q.enabled != Some(false))
    &&& s.created_at == created_at
}

/// The schedule of a request, under an identifier that was just made: it holds
/// every day and is enabled unless the request says otherwise. What is no time
/// or no day is a bad request.
pub fn create_schedule(id: String, q: CreateScheduleRequest, now: String) -> (r: Result<Schedule, Status>)
    ensures
        r is Ok <==> is_valid(q),
        r matches Ok(s) ==> is_schedule_of(s, id, q, now),
        r matches Err(e) ==> e == Status::BadRequest,
{
    let time_ranges = q.time_ranges.into_string();
    if !validate_time_ranges(time_ranges.as_str()) {
        return Err(Status::BadRequest);
    }
    let days_of_week = match q.days_of_week {
        Some(d) => d.into_string(),
        None => "mon,tue,wed,thu,fri,sat,sun".to_owned(),
    };
    if !validate_days_of_week(days_of_week.as_str()) {
        return Err(Status::BadRequest);
    }
    let enabled = match q.enabled {
        Some(b) => b,
        None => true,
    };
    Ok(
        Schedule {
            id,
            name: q.name,
            description: q.description,
            time_ranges,
            days_of_week,
            enabled,
            created_at: now,
        },
    )
}

/// The answer to a request that changes a schedule: the schedule that was to
/// be stored, how many rows that has changed, and whether the rules could be
/// loaded again.
pub fn update_schedule(s: Schedule, rows_affected: u64, reapplied: bool) -> (r: Result<Schedule, Status>)
    ensures
        r == (if rows_affected == 0 {
            Err(Status::NotFound)
        } else if !reapplied {
            Err(Status::Internal)
        } else {
            Ok(s)
        }),
{
    if rows_affected == 0 {
        return Err(Status::NotFound);
    }
    if !reapplied {
        return Err(Status::Internal);
    }
    Ok(s)
}

/// What is answered once a schedule was to be deleted and the rules to be
/// loaded without it.
pub fn delete_schedule(id: &str, rows_affected: u64, reapplied: bool) -> (r: Result<MessageResponse, Status>)
    ensures
        said(r) == (if rows_affected == 0 {
            Err::<Seq<char>, Status>(Status::NotFound)
        } else if !reapplied {
            Err(Status::Internal)
        } else {
            Ok("Schedule "@ + id@ + " deleted"@)
        }),
{
    if rows_affected == 0 {
        Err(Status::NotFound)
    } else if !reapplied {
        Err(Status::Internal)
    } else {
        Ok(MessageResponse { message: cat3("Schedule ", id, " deleted") })
    }
}

// ---------------------------------------------------------------------------
// Laws
// ---------------------------------------------------------------------------

proof fn lemma_two_parts(a: Seq<char>, b: Seq<char>, sep: char)
    requires
        !a.contains(sep),
        !b.contains(sep),
    ensures
        split(a + seq![sep] + b, sep) == seq![a, b],
{
    let l = seq![a, b];
    assert(l.drop_last() =~= seq![a]);
    reveal_with_fuel(join, 2);
    assert(join(l, seq![sep]) == a + seq![sep] + b);
    split_of_join(l, sep);
}

/// A time of day is an hour of at most 23 and a minute of at most 59 around a colon; without
/// a colon there is none.
pub proof fn times_of_day(h: Seq<char>, m: Seq<char>)
    requires
        !h.contains(':'),
        !m.contains(':'),
    ensures
        is_time(h + seq![':'] + m) <==> (parsed(h, 255) matches Some(n) && n <= 23) && (parsed(m, 255) matches Some(n)
            && n <= 59),
        !is_time(h),
        !is_time(h + seq![':'] + m + seq![':'] + h),
{
    lemma_two_parts(h, m, ':');
    let l = seq![h, m, h];
    reveal_with_fuel(join, 3);
    assert(l.drop_last() =~= seq![h, m]);
    assert(seq![h, m].drop_last() =~= seq![h]);
    assert(join(l, seq![':']) =~= h + seq![':'] + m + seq![':'] + h);
    split_of_join(l, ':');
    split_of_join(seq![h], ':');
    assert(join(seq![h], seq![':']) =~= h);
}

/// Every hour and minute of a day, written with a colon between them, is a time.
pub proof fn clock_times_are_times(h: nat, m: nat)
    requires
        h <= 255,
        m <= 255,
    ensures
        is_time(dec(h) + seq![':'] + dec(m)) <==> h < 24 && m < 60,
{
    parsed_of_dec(h, 255);
    parsed_of_dec(m, 255);
    value_of_dec(h);
    value_of_dec(m);
    if dec(h).contains(':') {
        let k = choose|k: int| 0 <= k < dec(h).len() && dec(h)[k] == ':';
        assert(is_digit(dec(h)[k]));
    }
    if dec(m).contains(':') {
        let k = choose|k: int| 0 <= k < dec(m).len() && dec(m)[k] == ':';
        assert(is_digit(dec(m)[k]));
    }
    times_of_day(dec(h), dec(m));
}

/// A range is two times around a hyphen, with white space around it or not.
pub proof fn ranges_have_two_ends(s: Seq<char>, a: Seq<char>, b: Seq<char>)
    requires
        !a.contains('-'),
        !b.contains('-'),
    ensures
        trim(s) == a + seq!['-'] + b ==> (is_range(s) <==> is_time(a) && is_time(b)),
        trim(s) == a ==> !is_range(s),
{
    lemma_two_parts(a, b, '-');
    split_of_join(seq![a], '-');
    assert(join(seq![a], seq!['-']) =~= a);
}

/// A list with commas is in order where every entry is.
pub proof fn lists_are_checked_entry_by_entry(l: Seq<Seq<char>>, i: int)
    requires
        l.len() >= 1,
        forall|k: int| 0 <= k < l.len() ==> !(#[trigger] l[k]).contains(','),
        0 <= i < l.len(),
    ensures
        are_ranges(join(l, seq![','])) ==> is_range(l[i]),
        are_days(join(l, seq![','])) ==> is_day(trim(l[i])),
        (forall|k: int| 0 <= k < l.len() ==> is_range(#[trigger] l[k])) ==> are_ranges(join(l, seq![','])),
        (forall|k: int| 0 <= k < l.len() ==> is_day(trim(#[trigger] l[k]))) ==> are_days(join(l, seq![','])),
{
    split_of_join(l, ',');
}

/// The days are the first three letters of their names, and there is no other.
pub proof fn days_have_their_names(s: Seq<char>)
    ensures
        is_day(seq!['m', 'o', 'n']),
        is_day(seq!['t', 'u', 'e']),
        is_day(seq!['w', 'e', 'd']),
        is_day(seq!['t', 'h', 'u']),
        is_day(seq!['f', 'r', 'i']),
        is_day(seq!['s', 'a', 't']),
        is_day(seq!['s', 'u', 'n']),
        is_day(s) ==> s.len() == 3,
        is_day(s) ==> (s =~= seq!['m', 'o', 'n'] || s =~= seq!['t', 'u', 'e'] || s =~= seq!['w', 'e', 'd']
            || s =~= seq!['t', 'h', 'u'] || s =~= seq!['f', 'r', 'i'] || s =~= seq!['s', 'a', 't']
            || s =~= seq!['s', 'u', 'n']),
{
    reveal_strlit("mon");
    assert("mon"@ =~= seq!['m', 'o', 'n']);
    reveal_strlit("tue");
    assert("tue"@ =~= seq!['t', 'u', 'e']);
    reveal_strlit("wed");
    assert("wed"@ =~= seq!['w', 'e', 'd']);
    reveal_strlit("thu");
    assert("thu"@ =~= seq!['t', 'h', 'u']);
    reveal_strlit("fri");
    assert("fri"@ =~= seq!['f', 'r', 'i']);
    reveal_strlit("sat");
    assert("sat"@ =~= seq!['s', 'a', 't']);
    reveal_strlit("sun");
    assert("sun"@ =~= seq!['s', 'u', 'n']);
}

/// A schedule holds what was asked for, each value in its own place; it is in force unless
/// that is declined, and without days it runs on all of them.
pub proof fn schedule_goes_by_its_request(s: Schedule, id: String, q: CreateScheduleRequest, created_at: String)
    requires
        is_schedule_of(s, id, q, created_at),
    ensures
        s.id == id,
        s.name == q.name,
        s.description == q.description,
        s.created_at == created_at,
        s.enabled <==> q.enabled != Some(false),
        q.time_ranges matches StringOrVec::Single(t) ==> s.time_ranges@ == t@,
        q.time_ranges matches StringOrVec::Multiple(v) ==> s.time_ranges@ == join(views(v@), seq![',']),
        q.days_of_week is None ==> s.days_of_week@ == "mon,tue,wed,thu,fri,sat,sun"@,
        q.days_of_week matches Some(StringOrVec::Single(t)) ==> s.days_of_week@ == t@,
        q.days_of_week matches Some(StringOrVec::Multiple(v)) ==> s.days_of_week@ == join(views(v@), seq![',']),
{
    reveal_strlit(",");
    assert(","@ =~= seq![',']);
}

proof fn lemma_day_is_trimmed(s: Seq<char>)
    requires
        is_day(s),
    ensures
        trim(s) == s,
        !s.contains(','),
{
    reveal_strlit("mon");
    reveal_strlit("tue");
    reveal_strlit("wed");
    reveal_strlit("thu");
    reveal_strlit("fri");
    reveal_strlit("sat");
    reveal_strlit("sun");
    assert(s.len() == 3);
    assert(s[0] != ',' && s[1] != ',' && s[2] != ',');
    trim_is_idempotent(s);
}

proof fn lemma_all_days()
    ensures
        are_days("mon,tue,wed,thu,fri,sat,sun"@),
{
    reveal_strlit("mon,tue,wed,thu,fri,sat,sun");
    reveal_strlit("mon");
    reveal_strlit("tue");
    reveal_strlit("wed");
    reveal_strlit("thu");
    reveal_strlit("fri");
    reveal_strlit("sat");
    reveal_strlit("sun");

    let l = seq!["mon"@, "tue"@, "wed"@, "thu"@, "fri"@, "sat"@, "sun"@];
    reveal_with_fuel(join, 8);
    assert(seq!["mon"@, "tue"@, "wed"@, "thu"@, "fri"@, "sat"@, "sun"@].drop_last() =~= seq!["mon"@, "tue"@, "wed"@,
        "thu"@, "fri"@, "sat"@]);
    assert(seq!["mon"@, "tue"@, "wed"@, "thu"@, "fri"@, "sat"@].drop_last() =~= seq!["mon"@, "tue"@, "wed"@, "thu"@,
        "fri"@]);
    assert(seq!["mon"@, "tue"@, "wed"@, "thu"@, "fri"@].drop_last() =~= seq!["mon"@, "tue"@, "wed"@, "thu"@]);
    assert(seq!["mon"@, "tue"@, "wed"@, "thu"@].drop_last() =~= seq!["mon"@, "tue"@, "wed"@]);
    assert(seq!["mon"@, "tue"@, "wed"@].drop_last() =~= seq!["mon"@, "tue"@]);
    assert(seq!["mon"@, "tue"@].drop_last() =~= seq!["mon"@]);
    assert(join(l, seq![',']) =~= "mon,tue,wed,thu,fri,sat,sun"@);
    assert forall|k: int| 0 <= k < l.len() implies !(#[trigger] l[k]).contains(',') && is_day(trim(l[k])) by {
        assert(is_day(l[k]));
        lemma_day_is_trimmed(l[k]);
    }
    split_of_join(l, ',');
}

/// A request for a schedule is valid where its ranges are and its days are.
pub proof fn schedules_are_refused_for_a_reason(q: CreateScheduleRequest)
    ensures
        !are_ranges(q.time_ranges.text()) ==> !is_valid(q),
        q.days_of_week matches Some(d) ==> !are_days(d.text()) ==> !is_valid(q),
        q.days_of_week matches Some(d) ==> are_ranges(q.time_ranges.text()) && are_days(d.text()) ==> is_valid(q),
        q.days_of_week is None && are_ranges(q.time_ranges.text()) ==> is_valid(q),
{
    lemma_all_days();
}

/// A schedule is made where the request is valid. A change or a deletion of none is not found,
/// and one that could not be applied is the server's failure.
pub proof fn schedules_are_answered(id: &str, s: Schedule, n: u64, new_id: String, now: String,
    q: CreateScheduleRequest, r: Result<Schedule, Status>, d: Result<MessageResponse, Status>, applied: bool)
    ensures
        call_ensures(create_schedule, (new_id, q, now), r) ==> (r is Ok <==> is_valid(q)) && (r matches Ok(x)
            ==> x.id == new_id && x.created_at == now && x.name == q.name) && (r matches Err(e)
            ==> e == Status::BadRequest),
        call_ensures(update_schedule, (s, 0u64, applied), r) ==> r == Err::<Schedule, Status>(Status::NotFound),
        call_ensures(update_schedule, (s, n, false), r) && n > 0 ==> r == Err::<Schedule, Status>(Status::Internal),
        call_ensures(update_schedule, (s, n, true), r) && n > 0 ==> r == Ok::<Schedule, Status>(s),
        call_ensures(delete_schedule, (id, 0u64, applied), d) ==> d == Err::<MessageResponse, Status>(Status::NotFound),
        call_ensures(delete_schedule, (id, n, false), d) && n > 0
            ==> d == Err::<MessageResponse, Status>(Status::Internal),
        call_ensures(delete_schedule, (id, n, true), d) && n > 0 ==> d is Ok
            && d->Ok_0.message@ == "Schedule "@ + id@ + " deleted"@,
{
}

} // verus!
