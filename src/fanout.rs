//! Bounded fan-out of detail-page fetches. The scheduler hands out at most
//! `limit` requests at a time, files each outcome under the index of the
//! event it belongs to, and reassembles the events in listing order
//! however the fetches completed.
use vstd::prelude::*;
use crate::adapter::{enrich_event, enriched, records, DetailRules};
use crate::event::Event;

verus! {

/// Where one event stands in the fan-out.
pub enum Slot {
    /// The event has no detail URL: nothing is fetched.
    Skipped,
    /// The fetch has not been handed out yet.
    Queued,
    /// The fetch is handed out and has not reported back.
    Running,
    /// The detail page was fetched; its body.
    Fetched(String),
    /// The fetch failed; the event keeps its fields.
    Failed,
}

/// Number of running slots.
pub open spec fn running_count(s: Seq<Slot>) -> nat
    decreases s.len(),
{
    if s.len() == 0 {
        0
    } else {
        running_count(s.drop_last()) + if s.last() is Running {
            1nat
        } else {
            0nat
        }
    }
}

proof fn lemma_count_update(s: Seq<Slot>, i: int, v: Slot)
    requires
        0 <= i < s.len(),
    ensures
        running_count(s.update(i, v)) as int == running_count(s) as int - (if s[i] is Running {
            1int
        } else {
            0int
        }) + (if v is Running {
            1int
        } else {
            0int
        }),
    decreases s.len(),
{
    if i == s.len() - 1 {
        assert(s.update(i, v).drop_last() =~= s.drop_last());
    } else {
        lemma_count_update(s.drop_last(), i, v);
        assert(s.update(i, v).drop_last() =~= s.drop_last().update(i, v));
    }
}

/// The scheduler of one batch of detail fetches.
pub struct FanOut {
    limit: usize,
    urls: Vec<String>,
    slots: Vec<Slot>,
    running: usize,
}

/// The state that a slot starts in, given the event's detail URL.
pub open spec fn initial_slot(url: Seq<char>, s: Slot) -> bool {
    if url.len() == 0 {
        s is Skipped
    } else {
        s is Queued
    }
}

impl FanOut {
    /// The concurrency bound.
    pub closed spec fn bound(self) -> nat {
        self.limit as nat
    }

    /// The state of each event.
    pub closed spec fn slots(self) -> Seq<Slot> {
        self.slots@
    }

    /// The detail URL of each event.
    pub closed spec fn urls(self) -> Seq<Seq<char>> {
        crate::date::texts(self.urls@)
    }

    /// Number of fetches handed out that have not reported back.
    pub closed spec fn in_flight(self) -> nat {
        self.running as nat
    }

    /// The counters agree with the slots, and never more than `limit`
    /// fetches run at once.
    pub closed spec fn well_formed(self) -> bool {
        &&& self.limit > 0
        &&& self.urls@.len() == self.slots@.len()
        &&& self.running as nat == running_count(self.slots@)
        &&& self.running <= self.limit
    }

    /// A well-formed batch never has more than its bound in flight.
    pub proof fn lemma_in_flight_bounded(self)
        requires
            self.well_formed(),
        ensures
            self.in_flight() <= self.bound(),
            self.bound() > 0,
    {
    }

    /// Whether nothing is left to hand out or to wait for.
    pub open spec fn finished(self) -> bool {
        forall|i: int|
            0 <= i < self.slots().len() ==> !(#[trigger] self.slots()[i] is Queued) && !(
            self.slots()[i] is Running)
    }

    /// A batch for the given events: one queued fetch per event with a
    /// non-empty URL, at most `limit` of them at a time.
    pub fn new(events: &Vec<Event>, limit: usize) -> (r: FanOut)
        requires
            limit > 0,
        ensures
            r.well_formed(),
            r.bound() == limit,
            r.in_flight() == 0,
            r.slots().len() == events@.len(),
            forall|i: int| 0 <= i < events@.len() ==> #[trigger] r.urls()[i] == events@[i].url@,
            forall|i: int|
                0 <= i < events@.len() ==> initial_slot(events@[i].url@, #[trigger] r.slots()[i]),
    {
        let mut urls: Vec<String> = Vec::new();
        let mut slots: Vec<Slot> = Vec::new();
        let mut i: usize = 0;
        while i < events.len()
            invariant
                i <= events@.len(),
                urls@.len() == i,
                slots@.len() == i,
                running_count(slots@) == 0,
                forall|j: int|
                    0 <= j < i ==> (#[trigger] urls@[j])@ == events@[j].url@,
                forall|j: int|
                    0 <= j < i ==> initial_slot(events@[j].url@, #[trigger] slots@[j]),
            decreases events.len() - i,
        {
            let url = events[i].url.clone();
            let slot = if url.unicode_len() == 0 {
                Slot::Skipped
            } else {
                Slot::Queued
            };
            let ghost before = slots@;
            urls.push(url);
            slots.push(slot);
            assert(slots@.drop_last() =~= before);
            i = i + 1;
        }
        let r = FanOut { limit, urls, slots, running: 0 };
        assert forall|i: int| 0 <= i < events@.len() implies r.urls()[i] == events@[i].url@ by {
            assert(r.urls()[i] == r.urls@[i]@);
        }
        r
    }

    /// Hands out the lowest-indexed queued fetch, if fewer than `limit`
    /// fetches are running: its index and URL. Returns `None` when the
    /// bound is reached or nothing is queued.
    pub fn next_request(&mut self) -> (r: Option<(usize, String)>)
        requires
            old(self).well_formed(),
        ensures
            final(self).well_formed(),
            final(self).bound() == old(self).bound(),
            final(self).urls() == old(self).urls(),
            match r {
                Some((i, url)) => {
                    &&& old(self).in_flight() < old(self).bound()
                    &&& i < old(self).slots().len()
                    &&& old(self).slots()[i as int] is Queued
                    &&& forall|j: int| 0 <= j < i ==> !(#[trigger] old(self).slots()[j] is Queued)
                    &&& url@ == old(self).urls()[i as int]
                    &&& final(self).slots() == old(self).slots().update(i as int, Slot::Running)
                    &&& final(self).in_flight() == old(self).in_flight() + 1
                },
                None => {
                    &&& final(self).slots() == old(self).slots()
                    &&& final(self).in_flight() == old(self).in_flight()
                    &&& (old(self).in_flight() == old(self).bound() || forall|j: int|
                        0 <= j < old(self).slots().len() ==> !(
                        #[trigger] old(self).slots()[j] is Queued))
                },
            },
    {
        if self.running >= self.limit {
            return None;
        }
        match self.first_queued() {
            Some(i) => {
                proof {
                    lemma_count_update(self.slots@, i as int, Slot::Running);
                }
                self.slots[i] = Slot::Running;
                self.running = self.running + 1;
                Some((i, self.urls[i].clone()))
            },
            None => None,
        }
    }

    fn first_queued(&self) -> (r: Option<usize>)
        ensures
            match r {
                Some(i) => {
                    &&& i < self.slots@.len()
                    &&& self.slots@[i as int] is Queued
                    &&& forall|j: int| 0 <= j < i ==> !(#[trigger] self.slots@[j] is Queued)
                },
                None => forall|j: int|
                    0 <= j < self.slots@.len() ==> !(#[trigger] self.slots@[j] is Queued),
            },
    {
        let mut i: usize = 0;
        while i < self.slots.len()
            invariant
                i <= self.slots@.len(),
                forall|j: int| 0 <= j < i ==> !(#[trigger] self.slots@[j] is Queued),
            decreases self.slots.len() - i,
        {
            if let Slot::Queued = self.slots[i] {
                return Some(i);
            }
            i = i + 1;
        }
        None
    }

    /// Files the outcome of the fetch for event `index`: the page body, or
    /// `None` where the fetch failed. An outcome for an event whose fetch is
    /// not running is ignored, and `false` returned.
    pub fn complete(&mut self, index: usize, outcome: Option<String>) -> (r: bool)
        requires
            old(self).well_formed(),
        ensures
            final(self).well_formed(),
            final(self).bound() == old(self).bound(),
            final(self).urls() == old(self).urls(),
            r == (index < old(self).slots().len() && old(self).slots()[index as int] is Running),
            r ==> final(self).in_flight() + 1 == old(self).in_flight(),
            r ==> final(self).slots() == old(self).slots().update(
                index as int,
                match outcome {
                    Some(page) => Slot::Fetched(page),
                    None => Slot::Failed,
                },
            ),
            !r ==> *final(self) == *old(self),
    {
        if index >= self.slots.len() {
            return false;
        }
        if let Slot::Running = self.slots[index] {
            let slot = match outcome {
                Some(page) => Slot::Fetched(page),
                None => Slot::Failed,
            };
            proof {
                lemma_count_update(self.slots@, index as int, slot);
            }
            self.slots[index] = slot;
            self.running = self.running - 1;
            true
        } else {
            false
        }
    }

    /// Whether every fetch has been handed out and has reported back.
    pub fn is_finished(&self) -> (r: bool)
        ensures
            r == self.finished(),
    {
        let mut i: usize = 0;
        while i < self.slots.len()
            invariant
                i <= self.slots@.len(),
                forall|j: int|
                    0 <= j < i ==> !(#[trigger] self.slots@[j] is Queued) && !(
                    self.slots@[j] is Running),
            decreases self.slots.len() - i,
        {
            match self.slots[i] {
                Slot::Queued => return false,
                Slot::Running => return false,
                _ => {},
            }
            i = i + 1;
        }
        true
    }

    /// Reassembles the batch: each event, in its listing position, is
    /// completed from its own detail page where that was fetched, and kept as
    /// it was otherwise.
    pub fn finish(&self, events: Vec<Event>, rules: &DetailRules) -> (r: Vec<Event>)
        requires
            rules.valid(),
            events@.len() == self.slots().len(),
        ensures
            r@.len() == events@.len(),
            forall|i: int|
                0 <= i < events@.len() ==> #[trigger] r@[i]@ == outcome_record(
                    events@[i]@,
                    self.slots()[i],
                    *rules,
                ),
    {
        let mut events = events;
        let ghost start = records(events@);
        let mut i: usize = 0;
        while i < self.slots.len()
            invariant
                rules.valid(),
                i <= self.slots@.len(),
                events@.len() == self.slots@.len(),
                start.len() == events@.len(),
                forall|j: int|
                    0 <= j < i ==> #[trigger] events@[j]@ == outcome_record(
                        start[j],
                        self.slots@[j],
                        *rules,
                    ),
                forall|j: int| i <= j < events@.len() ==> #[trigger] events@[j]@ == start[j],
            decreases self.slots.len() - i,
        {
            if let Slot::Fetched(page) = &self.slots[i] {
                let mut event = Event::blank();
                std::mem::swap(&mut event, &mut events[i]);
                enrich_event(&mut event, rules, page.as_str());
                std::mem::swap(&mut event, &mut events[i]);
            }
            i = i + 1;
        }
        events
    }
}

/// What becomes of an event's record given the final state of its slot.
pub open spec fn outcome_record(record: Seq<Seq<char>>, slot: Slot, rules: DetailRules) -> Seq<
    Seq<char>,
> {
    match slot {
        Slot::Fetched(page) => enriched(record, rules, page@),
        _ => record,
    }
}

} // verus!
