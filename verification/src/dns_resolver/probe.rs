//! Asking the resolver whether it answers: a query for the root zone's `SOA`
//! record, and what counts as a reply.

use vstd::prelude::*;

verus! {

/// The query for `SOA .` with the identifier `id`: recursion desired, one
/// question, no other records.
pub open spec fn soa_query(id: u16) -> Seq<u8> {
    seq![
        (id / 256) as u8,
        (id % 256) as u8,
        1u8,
        0u8,
        0u8,
        1u8,
        0u8,
        0u8,
        0u8,
        0u8,
        0u8,
        0u8,
        0u8,
        0u8,
        6u8,
        0u8,
        1u8,
    ]
}

/// The wire form of the query, 17 bytes.
pub fn soa_root_query(id: u16) -> (q: Vec<u8>)
    ensures
        q@ == soa_query(id),
        q@.len() == 17,
{
    let q: Vec<u8> = vec![
        (id / 256) as u8,
        (id % 256) as u8,
        1u8,
        0u8,
        0u8,
        1u8,
        0u8,
        0u8,
        0u8,
        0u8,
        0u8,
        0u8,
        0u8,
        0u8,
        6u8,
        0u8,
        1u8,
    ];
    assert(q@ =~= soa_query(id));
    q
}

/// A moment of the system's clock, carried through.
#[verifier::external_type_specification]
#[verifier::external_body]
pub struct ExSystemTime(std::time::SystemTime);

/// The current moment, read with `SystemTime::now`. Nothing is promised of it.
#[verifier::external_body]
fn clock_now() -> (r: std::time::SystemTime) {
    std::time::SystemTime::now()
}

/// The time since 1970 by `SystemTime::duration_since`, or none for a moment
/// before that. Nothing is promised of its length.
#[verifier::external_body]
fn since_epoch(t: std::time::SystemTime) -> (r: Option<std::time::Duration>) {
    t.duration_since(std::time::UNIX_EPOCH).ok()
}

/// The fraction of a second in a duration by `Duration::subsec_nanos`, in
/// nanoseconds: less than one second.
#[verifier::external_body]
fn fraction_nanos(d: &std::time::Duration) -> (r: u32)
    ensures
        r < 1_000_000_000,
{
    d.subsec_nanos()
}

/// A query with an identifier taken from the clock.
pub fn build_soa_root_query() -> (q: Vec<u8>)
    ensures
        q@.len() == 17,
        exists|id: u16| q@ == soa_query(id),
{
    let nanos: u32 = match since_epoch(clock_now()) {
        Some(d) => fraction_nanos(&d),
        None => 0xBEEF,
    };
    let id: u16 = (nanos % 65536) as u16;
    let q = soa_root_query(id);
    assert(q@ == soa_query(id));
    q
}

/// A reply to `query`: it has a whole header, echoes the identifier, and has
/// the response bit, the highest bit of its third byte, set.
pub open spec fn is_reply(query: Seq<u8>, resp: Seq<u8>) -> bool {
    resp.len() >= 12 && resp[0] == query[0] && resp[1] == query[1] && resp[2] >= 128
}

/// Whether `resp` is a reply to `query`.
pub fn response_matches(query: &[u8], resp: &[u8]) -> (r: bool)
    requires
        query@.len() >= 2,
    ensures
        r == is_reply(query@, resp@),
{
    resp.len() >= 12 && resp[0] == query[0] && resp[1] == query[1] && resp[2] >= 128
}

/// Over TCP a message goes behind its length in two bytes.
pub open spec fn tcp_message(m: Seq<u8>) -> Seq<u8> {
    seq![(m.len() / 256) as u8, (m.len() % 256) as u8] + m
}

/// The TCP form of a message.
pub fn tcp_frame(m: &Vec<u8>) -> (r: Vec<u8>)
    requires
        m@.len() <= 65535,
    ensures
        r@ == tcp_message(m@),
{
    let n: usize = m.len();
    let mut r: Vec<u8> = vec![(n / 256) as u8, (n % 256) as u8];
    let mut i: usize = 0;
    while i < n
        invariant
            i <= n,
            n == m@.len(),
            r@ =~= seq![(n / 256) as u8, (n % 256) as u8] + m@.take(i as int),
        decreases n - i,
    {
        r.push(m[i]);
        i = i + 1;
    }
    assert(m@.take(n as int) =~= m@);
    r
}

/// How many bytes a TCP reply announces, where that is a length worth reading.
pub fn tcp_reply_len(high: u8, low: u8) -> (r: Option<usize>)
    ensures
        match r {
            Some(n) => n == high * 256 + low && 1 <= n <= 4096,
            None => !(1 <= high * 256 + low <= 4096),
        },
{
    let n: usize = high as usize * 256 + low as usize;
    if n == 0 || n > 4096 {
        None
    } else {
        Some(n)
    }
}

/// How long one probe may take, in milliseconds.
pub const PROBE_TRY_MS: u64 = 700;

/// Whether polling goes on after an attempt: not once both transports
/// answered, and not once UDP answered and no further attempt fits the deadline.
pub open spec fn polls_again(udp: bool, tcp: bool, elapsed_ms: nat, deadline_ms: nat) -> bool {
    !(udp && tcp) && !(udp && elapsed_ms + PROBE_TRY_MS >= deadline_ms)
}

/// Decides [`polls_again`].
pub fn keep_polling(udp: bool, tcp: bool, elapsed_ms: u64, deadline_ms: u64) -> (r: bool)
    ensures
        r == polls_again(udp, tcp, elapsed_ms as nat, deadline_ms as nat),
{
    if udp && tcp {
        return false;
    }
    let no_more = if elapsed_ms >= deadline_ms {
        true
    } else {
        PROBE_TRY_MS >= deadline_ms - elapsed_ms
    };
    !(udp && no_more)
}

/// Where a poll stands: in each round UDP is asked first, then TCP.
#[derive(Clone, Copy, Debug, PartialEq, Eq, Structural)]
pub enum PollPlace {
    /// A round begins.
    Round,
    /// It is the turn of TCP.
    Tcp,
    /// Both had their turn.
    End,
}

/// What a poll does next.
#[derive(Clone, Copy, Debug, PartialEq, Eq, Structural)]
pub enum PollStep {
    /// Probe over UDP; the answer goes to [`Polling::answered`].
    AskUdp,
    /// Probe over TCP; the answer goes to [`Polling::answered`].
    AskTcp,
    /// Wait a quarter of a second; then [`Polling::waited`] is called.
    Wait,
    /// The poll is over.
    Finish,
}

/// A poll until the resolver answers or the time is up. A transport that has
/// answered is not asked again.
#[derive(Clone, Copy, Debug, PartialEq, Eq, Structural)]
pub struct Polling {
    pub udp: bool,
    pub tcp: bool,
    pub place: PollPlace,
}

impl Polling {
    /// What the poll does next, with so much time gone.
    pub open spec fn step_at(self, elapsed_ms: nat, deadline_ms: nat) -> PollStep {
        if self.place == PollPlace::Round && elapsed_ms >= deadline_ms {
            PollStep::Finish
        } else if self.place == PollPlace::Round && !self.udp {
            PollStep::AskUdp
        } else if self.place != PollPlace::End && !self.tcp {
            PollStep::AskTcp
        } else if polls_again(self.udp, self.tcp, elapsed_ms, deadline_ms) {
            PollStep::Wait
        } else {
            PollStep::Finish
        }
    }

    /// The poll after an answer.
    pub open spec fn after_answer(self, step: PollStep, ok: bool) -> Polling {
        match step {
            PollStep::AskUdp => Polling { udp: ok, place: PollPlace::Tcp, ..self },
            PollStep::AskTcp => Polling { tcp: ok, place: PollPlace::End, ..self },
            _ => self,
        }
    }

    /// A poll that has not asked yet.
    pub fn start() -> (p: Polling)
        ensures
            p == (Polling { udp: false, tcp: false, place: PollPlace::Round }),
    {
        Polling { udp: false, tcp: false, place: PollPlace::Round }
    }

    /// What the poll does next, with so much time gone.
    pub fn step(&self, elapsed_ms: u64, deadline_ms: u64) -> (s: PollStep)
        ensures
            s == self.step_at(elapsed_ms as nat, deadline_ms as nat),
            s == PollStep::AskUdp ==> !self.udp,
            s == PollStep::AskTcp ==> !self.tcp,
    {
        if self.place == PollPlace::Round && elapsed_ms >= deadline_ms {
            PollStep::Finish
        } else if self.place == PollPlace::Round && !self.udp {
            PollStep::AskUdp
        } else if self.place != PollPlace::End && !self.tcp {
            PollStep::AskTcp
        } else if keep_polling(self.udp, self.tcp, elapsed_ms, deadline_ms) {
            PollStep::Wait
        } else {
            PollStep::Finish
        }
    }

    /// Takes note of whether a probe was answered.
    pub fn answered(&mut self, step: PollStep, ok: bool)
        ensures
            *final(self) == old(self).after_answer(step, ok),
    {
        match step {
            PollStep::AskUdp => {
                self.udp = ok;
                self.place = PollPlace::Tcp;
            },
            PollStep::AskTcp => {
                self.tcp = ok;
                self.place = PollPlace::End;
            },
            _ => {},
        }
    }

    /// The wait is over: the next round begins.
    pub fn waited(&mut self)
        ensures
            *final(self) == (Polling { place: PollPlace::Round, ..*old(self) }),
    {
        self.place = PollPlace::Round;
    }
}

/// A resolver that answers over both transports ends the poll in the first
/// round, and one that never answers over UDP is polled until the time is up.
pub proof fn poll_ends_with_the_answers(p: Polling, elapsed_ms: nat, deadline_ms: nat)
    ensures
        p.udp && p.tcp ==> p.step_at(elapsed_ms, deadline_ms) == PollStep::Finish,
        !p.udp && p.step_at(elapsed_ms, deadline_ms) == PollStep::Finish ==> p.place == PollPlace::Round && elapsed_ms
            >= deadline_ms,
{
}

// ---------------------------------------------------------------------------
// Laws
// ---------------------------------------------------------------------------

/// The query has its identifier in front, asks one question with recursion, and the question is
/// the start of authority of the root.
pub proof fn query_asks_for_the_root(id: u16)
    ensures
        soa_query(id).len() == 17,
        soa_query(id)[0] * 256 + soa_query(id)[1] == id,
        soa_query(id)[2] == 1 && soa_query(id)[3] == 0,
        soa_query(id)[4] * 256 + soa_query(id)[5] == 1,
        forall|i: int| 6 <= i < 12 ==> (#[trigger] soa_query(id)[i]) == 0,
        soa_query(id)[12] == 0,
        soa_query(id)[13] * 256 + soa_query(id)[14] == 6,
        soa_query(id)[15] * 256 + soa_query(id)[16] == 1,
{
}

/// A reply has a whole header, the identifier of the query and the mark of a reply.
pub proof fn replies_carry_the_identifier(query: Seq<u8>, resp: Seq<u8>)
    ensures
        resp.len() < 12 ==> !is_reply(query, resp),
        resp[0] != query[0] || resp[1] != query[1] ==> !is_reply(query, resp),
        resp[2] < 128 ==> !is_reply(query, resp),
        resp.len() >= 12 && resp[0] == query[0] && resp[1] == query[1] && resp[2] >= 128 ==> is_reply(query, resp),
{
}

/// Over TCP a message follows its length in two bytes.
pub proof fn length_goes_before_the_message(m: Seq<u8>)
    requires
        m.len() < 65536,
    ensures
        tcp_message(m).len() == m.len() + 2,
        tcp_message(m)[0] * 256 + tcp_message(m)[1] == m.len(),
        tcp_message(m).skip(2) == m,
{
    assert(tcp_message(m).skip(2) =~= m);
}

/// A poll goes on until both transports answer; once UDP does it ends where no time is left for
/// another try of 700 milliseconds.
pub proof fn polling_goes_on(udp: bool, tcp: bool, elapsed_ms: nat, deadline_ms: nat)
    ensures
        udp && tcp ==> !polls_again(udp, tcp, elapsed_ms, deadline_ms),
        !udp ==> polls_again(udp, tcp, elapsed_ms, deadline_ms),
        udp && !tcp ==> (polls_again(udp, tcp, elapsed_ms, deadline_ms) <==> elapsed_ms + 700 < deadline_ms),
{
}

/// A round asks over UDP first and then over TCP, each only as long as it has not answered; a
/// round is not begun once the time is up.
pub proof fn rounds_ask_what_has_not_answered(p: Polling, elapsed_ms: nat, deadline_ms: nat, ok: bool)
    ensures
        p.place == PollPlace::Round && elapsed_ms >= deadline_ms
            ==> p.step_at(elapsed_ms, deadline_ms) == PollStep::Finish,
        p.place == PollPlace::Round && elapsed_ms < deadline_ms && !p.udp
            ==> p.step_at(elapsed_ms, deadline_ms) == PollStep::AskUdp,
        p.place == PollPlace::Round && elapsed_ms < deadline_ms && p.udp && !p.tcp
            ==> p.step_at(elapsed_ms, deadline_ms) == PollStep::AskTcp,
        p.place == PollPlace::Tcp && !p.tcp ==> p.step_at(elapsed_ms, deadline_ms) == PollStep::AskTcp,
        p.place == PollPlace::End ==> (p.step_at(elapsed_ms, deadline_ms) == PollStep::Wait
            <==> polls_again(p.udp, p.tcp, elapsed_ms, deadline_ms)),
        p.place == PollPlace::Tcp && p.tcp && !p.udp ==> p.step_at(elapsed_ms, deadline_ms) == PollStep::Wait,
        p.after_answer(PollStep::AskUdp, ok).udp == ok,
        p.after_answer(PollStep::AskUdp, ok).tcp == p.tcp,
        p.after_answer(PollStep::AskUdp, ok).place == PollPlace::Tcp,
        p.after_answer(PollStep::AskTcp, ok).tcp == ok,
        p.after_answer(PollStep::AskTcp, ok).udp == p.udp,
        p.after_answer(PollStep::AskTcp, ok).place == PollPlace::End,
        p.after_answer(PollStep::Wait, ok) == p,
        p.after_answer(PollStep::Finish, ok) == p,
{
}

/// The answer over a transport is kept as that of the transport, and a wait begins a new round.
pub proof fn answers_of_the_probe_are_kept(ok: bool, d: ())
    ensures
        forall|l: &mut Polling| #[trigger] call_ensures(Polling::answered, (l, PollStep::AskUdp, ok), d)
            ==> final(l).udp == ok && final(l).tcp == (*l).tcp && final(l).place == PollPlace::Tcp,
        forall|l: &mut Polling| #[trigger] call_ensures(Polling::answered, (l, PollStep::AskTcp, ok), d)
            ==> final(l).tcp == ok && final(l).udp == (*l).udp && final(l).place == PollPlace::End,
        forall|l: &mut Polling| #[trigger] call_ensures(Polling::waited, (l,), d)
            ==> final(l).place == PollPlace::Round && final(l).udp == (*l).udp && final(l).tcp == (*l).tcp,
{
}

/// A reply over TCP has the length of its first two bytes, the higher one first, where that is
/// at least one and at most 4096. A poll begins with no answer.
pub proof fn replies_have_their_length(high: u8, low: u8, r: Option<usize>, p: Polling)
    ensures
        call_ensures(tcp_reply_len, (high, low), r) && 1 <= high * 256 + low <= 4096 ==> r is Some
            && r->0 == high * 256 + low,
        call_ensures(tcp_reply_len, (high, low), r) && !(1 <= high * 256 + low <= 4096) ==> r is None,
        call_ensures(Polling::start, (), p) ==> !p.udp && !p.tcp && p.place == PollPlace::Round,
{
}

} // verus!
