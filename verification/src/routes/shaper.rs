//! The shaping of traffic.

use vstd::prelude::*;
use vstd::string::*;

use crate::backup::convert::QueueConfig;
use crate::identifiers::{answer_change, change_answer, require_uuid, said, uuid_text, EntityId};
use crate::status::{MessageResponse, Status};
use crate::text::same;

verus! {

/// How the shaping stands.
#[derive(Clone, Debug)]
pub struct ShaperStatus {
    pub configured: usize,
    pub active: usize,
    pub backend: &'static str,
    pub verified: bool,
}

/// How many of the queues are active.
pub open spec fn active_count(v: Seq<QueueConfig>) -> nat
    decreases v.len(),
{
    if v.len() == 0 {
        0
    } else if v.last().status@ == "active"@ {
        active_count(v.drop_last()) + 1
    } else {
        active_count(v.drop_last())
    }
}

/// How the shaping stands. On a system with `dummynet` the active queues are
/// there where its list can be read, and on any other there are none.
pub fn shaper_status(queues: &Vec<QueueConfig>, has_dummynet: bool, pipes_listed: bool) -> (r: ShaperStatus)
    ensures
        r.configured == queues@.len(),
        r.active == active_count(queues@),
        r.backend@ == (if has_dummynet {
            "dummynet"@
        } else {
            "mock"@
        }),
        r.verified == (if has_dummynet && r.active > 0 {
            pipes_listed
        } else {
            r.active == 0
        }),
{
    let mut active: usize = 0;
    let mut i: usize = 0;
    while i < queues.len()
        invariant
            i <= queues@.len(),
            active <= i,
            active == active_count(queues@.take(i as int)),
        decreases queues.len() - i,
    {
        assert(queues@.take(i + 1).drop_last() =~= queues@.take(i as int));
        if same(queues[i].status.as_str(), "active") {
            active = active + 1;
        }
        i = i + 1;
    }
    assert(queues@.take(queues@.len() as int) =~= queues@);
    let verified = if has_dummynet && active > 0 {
        pipes_listed
    } else {
        active == 0
    };
    let backend = if has_dummynet {
        "dummynet"
    } else {
        "mock"
    };
    ShaperStatus { configured: queues.len(), active, backend, verified }
}

/// The queue of a request, under the identifier in its path: what is none is a
/// bad request.
pub fn update_shaper_queue(id: &str, queue: QueueConfig) -> (r: Result<QueueConfig, Status>)
    ensures
        r is Ok <==> uuid_text(id@) is Some,
        r matches Err(e) ==> e == Status::BadRequest,
        r matches Ok(q) ==> (q.id matches EntityId::Kept(t) && uuid_text(id@) == Some(t@)) && q == (QueueConfig {
            id: q.id,
            ..queue
        }),
{
    match require_uuid(id) {
        Err(e) => Err(e),
        Ok(t) => {
            let mut q = queue;
            q.id = EntityId::Kept(t);
            Ok(q)
        },
    }
}

/// What is answered once a queue was to be stored and the queues to be loaded:
/// a queue that the engine does not take is a bad request.
pub fn queue_answer(stored: Option<QueueConfig>, applied: bool) -> (r: Result<QueueConfig, Status>)
    ensures
        r == (match stored {
            None => Err::<QueueConfig, Status>(Status::BadRequest),
            Some(q) => if applied {
                Ok(q)
            } else {
                Err(Status::Internal)
            },
        }),
{
    match stored {
        None => Err(Status::BadRequest),
        Some(q) => if applied {
            Ok(q)
        } else {
            Err(Status::Internal)
        },
    }
}

/// What is answered once a queue was to be deleted and the others to be loaded.
pub fn delete_shaper_queue(id: &str, deleted: bool, applied: bool) -> (r: Result<MessageResponse, Status>)
    ensures
        said(r) == change_answer(
            id@,
            deleted && applied,
            if deleted {
                Status::Internal
            } else {
                Status::NotFound
            },
            "shaper queue deleted and live state reapplied"@,
        ),
{
    let failed = if deleted {
        Status::Internal
    } else {
        Status::NotFound
    };
    answer_change(id, deleted && applied, failed, "shaper queue deleted and live state reapplied".to_owned())
}

/// What is answered once the queues were to be loaded.
pub fn apply_shaper(applied: bool) -> (r: Result<MessageResponse, Status>)
    ensures
        said(r) == (if applied {
            Ok::<Seq<char>, Status>("shaper configuration applied and verified"@)
        } else {
            Err(Status::Internal)
        }),
{
    if applied {
        Ok(MessageResponse { message: "shaper configuration applied and verified".to_owned() })
    } else {
        Err(Status::Internal)
    }
}

// ---------------------------------------------------------------------------
// Laws
// ---------------------------------------------------------------------------

/// The active queues of two lists together are those of either: none is left out and none is
/// counted twice.
pub proof fn active_queues_are_counted(a: Seq<QueueConfig>, b: Seq<QueueConfig>)
    ensures
        active_count(Seq::<QueueConfig>::empty()) == 0,
        active_count(a + b) == active_count(a) + active_count(b),
    decreases b.len(),
{
    if b.len() == 0 {
        assert(a + b =~= a);
    } else {
        assert((a + b).drop_last() =~= a + b.drop_last());
        active_queues_are_counted(a, b.drop_last());
    }
}

/// A queue counts where its status is `active`.
pub proof fn active_queue_counts_once(q: QueueConfig)
    ensures
        active_count(Seq::<QueueConfig>::empty().push(q)) == (if q.status@ == seq!['a', 'c', 't', 'i', 'v',
            'e'] { 1nat } else { 0nat }),
{
    reveal_with_fuel(active_count, 2);
    assert(Seq::<QueueConfig>::empty().push(q).drop_last() =~= Seq::<QueueConfig>::empty());
    reveal_strlit("active");
    assert("active"@ =~= seq!['a', 'c', 't', 'i', 'v', 'e']);
}

/// The status counts the queues and those that are active, and is verified where the pipes of
/// the active queues are listed or there is none.
pub proof fn status_of_the_shaper(queues: &Vec<QueueConfig>, has_dummynet: bool, pipes_listed: bool, r: ShaperStatus)
    requires
        call_ensures(shaper_status, (queues, has_dummynet, pipes_listed), r),
    ensures
        r.configured == queues@.len(),
        r.active == active_count(queues@),
        has_dummynet ==> r.backend@ == "dummynet"@,
        !has_dummynet ==> r.backend@ == "mock"@,
        r.active == 0 ==> r.verified,
        r.active > 0 && has_dummynet ==> r.verified == pipes_listed,
        r.active > 0 && !has_dummynet ==> !r.verified,
{
}

/// A changed queue keeps what was asked for under the identifier of the request. A queue that was
/// stored is answered where it was applied, and a deletion where it was made and applied.
pub proof fn queues_are_answered(id: &str, queue: QueueConfig, r: Result<QueueConfig, Status>,
    d: Result<MessageResponse, Status>)
    ensures
        call_ensures(update_shaper_queue, (id, queue), r) ==> (r is Ok <==> uuid_text(id@) is Some),
        call_ensures(update_shaper_queue, (id, queue), r) ==> (r matches Ok(q) ==> q.name == queue.name
            && q.interface == queue.interface && q.queue_type == queue.queue_type
            && q.bandwidth_value == queue.bandwidth_value && q.bandwidth_unit == queue.bandwidth_unit
            && q.traffic_class == queue.traffic_class && q.bandwidth_pct == queue.bandwidth_pct
            && q.default == queue.default && q.status == queue.status && q.id is Kept
            && uuid_text(id@) == Some(q.id->Kept_0@)),
        call_ensures(update_shaper_queue, (id, queue), r) ==> (r matches Err(e) ==> e == Status::BadRequest),
        call_ensures(queue_answer, (None::<QueueConfig>, true), r)
            ==> r == Err::<QueueConfig, Status>(Status::BadRequest),
        call_ensures(queue_answer, (Some(queue), true), r) ==> r == Ok::<QueueConfig, Status>(queue),
        call_ensures(queue_answer, (Some(queue), false), r) ==> r == Err::<QueueConfig, Status>(Status::Internal),
        call_ensures(delete_shaper_queue, (id, true, true), d) && uuid_text(id@) is Some ==> d is Ok
            && d->Ok_0.message@ == "shaper queue deleted and live state reapplied"@,
        call_ensures(delete_shaper_queue, (id, true, false), d) && uuid_text(id@) is Some
            ==> d == Err::<MessageResponse, Status>(Status::Internal),
        call_ensures(delete_shaper_queue, (id, false, true), d) && uuid_text(id@) is Some
            ==> d == Err::<MessageResponse, Status>(Status::NotFound),
        call_ensures(delete_shaper_queue, (id, true, true), d) && uuid_text(id@) is None
            ==> d == Err::<MessageResponse, Status>(Status::BadRequest),
{
}

} // verus!
