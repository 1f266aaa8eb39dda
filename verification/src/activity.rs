//! Activity tracking: recording events and answering timeline queries.

use vstd::prelude::*;

use crate::model::activity::ActivityEvent;
use crate::model::error::{Error, VobeId};
use crate::text::str_eq;

verus! {

/// The last `n` items of `s` (all of them when there are fewer), in order.
pub open spec fn last_n<T>(s: Seq<T>, n: nat) -> Seq<T> {
    if n >= s.len() {
        s
    } else {
        s.subrange(s.len() - n, s.len() as int)
    }
}

/// The events of `s` about the vobe `id`, in order.
pub open spec fn events_of(s: Seq<ActivityEvent>, id: Seq<char>) -> Seq<ActivityEvent>
    decreases s.len(),
{
    if s.len() == 0 {
        s
    } else if s.last().vobe_id.0@ == id {
        events_of(s.drop_last(), id).push(s.last())
    } else {
        events_of(s.drop_last(), id)
    }
}

/// Something that records activity and answers timeline queries. Its
/// timeline is the sequence of recorded events, oldest first.
pub trait Tracker: Send + Sync {
    /// The recorded events, oldest first.
    spec fn timeline(&self) -> Seq<ActivityEvent>;

    /// Record an event: on success it becomes the newest one; on failure
    /// nothing is recorded.
    fn record(&mut self, event: &ActivityEvent) -> (r: Result<(), Error>)
        ensures
            match r {
                Ok(_) => final(self).timeline() == old(self).timeline().push(*event),
                Err(_) => final(self).timeline() == old(self).timeline(),
            },
    ;

    /// The `limit` most recent events, oldest first.
    fn recent(&self, limit: usize) -> (r: Result<Vec<ActivityEvent>, Error>)
        ensures
            r matches Ok(v) ==> v@ == last_n(self.timeline(), limit as nat),
    ;

    /// The `limit` most recent events about one vobe, oldest first.
    fn for_vobe(&self, vobe_id: &VobeId, limit: usize) -> (r: Result<Vec<ActivityEvent>, Error>)
        ensures
            r matches Ok(v) ==> v@ == last_n(events_of(self.timeline(), vobe_id.0@), limit as nat),
    ;
}

/// An activity tracker that keeps every event in memory, in the order in
/// which they were recorded.
pub struct InMemoryTracker {
    events: Vec<ActivityEvent>,
}

impl View for InMemoryTracker {
    type V = Seq<ActivityEvent>;

    /// The recorded events, oldest first.
    closed spec fn view(&self) -> Seq<ActivityEvent> {
        self.events@
    }
}

/// Copies of the events `s[from..]`, in order.
fn copy_from(s: &Vec<ActivityEvent>, from: usize) -> (r: Vec<ActivityEvent>)
    requires
        from <= s@.len(),
    ensures
        r@ == s@.subrange(from as int, s@.len() as int),
{
    let mut out: Vec<ActivityEvent> = Vec::new();
    let mut i: usize = from;
    while i < s.len()
        invariant
            from <= i <= s@.len(),
            out@ == s@.subrange(from as int, i as int),
        decreases s@.len() - i,
    {
        out.push(s[i].copied());
        i = i + 1;
        assert(out@ =~= s@.subrange(from as int, i as int));
    }
    out
}

impl InMemoryTracker {
    /// A tracker with no events.
    pub fn new() -> (t: InMemoryTracker)
        ensures
            t@ == Seq::<ActivityEvent>::empty(),
    {
        InMemoryTracker { events: Vec::new() }
    }
}

impl Tracker for InMemoryTracker {
    open spec fn timeline(&self) -> Seq<ActivityEvent> {
        self@
    }

    /// Record an event; it always succeeds and becomes the newest one.
    fn record(&mut self, event: &ActivityEvent) -> (r: Result<(), Error>)
        ensures
            final(self)@ == old(self)@.push(*event),
            r is Ok,
    {
        self.events.push(event.copied());
        Ok(())
    }

    /// The `limit` most recent events, oldest first; always succeeds.
    fn recent(&self, limit: usize) -> (r: Result<Vec<ActivityEvent>, Error>)
        ensures
            r matches Ok(v) && v@ == last_n(self@, limit as nat),
    {
        let n = self.events.len();
        let from: usize = if limit >= n {
            0
        } else {
            n - limit
        };
        let out = copy_from(&self.events, from);
        assert(limit >= n ==> self.events@.subrange(0, n as int) =~= self.events@);
        Ok(out)
    }

    /// The `limit` most recent events about one vobe, oldest first;
    /// always succeeds.
    fn for_vobe(&self, vobe_id: &VobeId, limit: usize) -> (r: Result<Vec<ActivityEvent>, Error>)
        ensures
            r matches Ok(v) && v@ == last_n(events_of(self@, vobe_id.0@), limit as nat),
    {
        let mut mine: Vec<ActivityEvent> = Vec::new();
        let mut i: usize = 0;
        while i < self.events.len()
            invariant
                i <= self.events@.len(),
                mine@ == events_of(self.events@.take(i as int), vobe_id.0@),
            decreases self.events@.len() - i,
        {
            proof {
                assert(self.events@.take(i + 1).drop_last() =~= self.events@.take(i as int));
            }
            if str_eq(self.events[i].vobe_id.0.as_str(), vobe_id.0.as_str()) {
                mine.push(self.events[i].copied());
            }
            i = i + 1;
        }
        assert(self.events@.take(self.events@.len() as int) =~= self.events@);
        let n = mine.len();
        let from: usize = if limit >= n {
            0
        } else {
            n - limit
        };
        let out = copy_from(&mine, from);
        assert(limit >= n ==> mine@.subrange(0, n as int) =~= mine@);
        Ok(out)
    }
}

/// Every event that `events_of` keeps is about the vobe asked for, and it
/// keeps no more events than there are.
pub proof fn lemma_events_of(s: Seq<ActivityEvent>, id: Seq<char>)
    ensures
        events_of(s, id).len() <= s.len(),
        forall|i: int|
            0 <= i < events_of(s, id).len() ==> (#[trigger] events_of(s, id)[i]).vobe_id.0@ == id,
    decreases s.len(),
{
    if s.len() > 0 {
        lemma_events_of(s.drop_last(), id);
    }
}

/// Timeline queries only return events about the vobe asked for, at most
/// `limit` of them, and the newest one last.
pub proof fn law_for_vobe_isolates(s: Seq<ActivityEvent>, id: Seq<char>, limit: nat)
    ensures
        last_n(events_of(s, id), limit).len() <= limit,
        forall|i: int|
            0 <= i < last_n(events_of(s, id), limit).len() ==> (#[trigger] last_n(
                events_of(s, id),
                limit,
            )[i]).vobe_id.0@ == id,
{
    lemma_events_of(s, id);
    let e = events_of(s, id);
    if limit < e.len() {
        assert forall|i: int| 0 <= i < last_n(e, limit).len() implies (#[trigger] last_n(
            e,
            limit,
        )[i]).vobe_id.0@ == id by {
            assert(last_n(e, limit)[i] == e[e.len() - limit + i]);
        }
    }
}

/// After recording an event, the most recent event is that event, and
/// the timeline holds everything recorded before it, unchanged.
pub proof fn law_record_then_recent(before: Seq<ActivityEvent>, e: ActivityEvent, limit: nat)
    requires
        limit >= 1,
    ensures
        last_n(before.push(e), limit).last() == e,
        last_n(before.push(e), limit).len() == if limit > before.len() + 1 {
            before.len() + 1 as int
        } else {
            limit as int
        },
        last_n(before.push(e), limit).drop_last() == last_n(before, (limit - 1) as nat),
{
    let s = before.push(e);
    if limit < s.len() {
        assert(last_n(s, limit).drop_last() =~= last_n(before, (limit - 1) as nat));
    } else {
        assert(last_n(s, limit).drop_last() =~= before);
    }
}

/// A query with a limit at least as large as the number of events returns
/// all of them, in the order they were recorded.
pub proof fn law_recent_all_in_order(s: Seq<ActivityEvent>, limit: nat)
    requires
        limit >= s.len(),
    ensures
        last_n(s, limit) == s,
{
}

} // verus!
