//! The dispatcher: one request for one source, as a state machine. The
//! caller performs each fetch that [`Request::next_action`] asks for and
//! hands the outcome back; the request decides everything else.
use vstd::prelude::*;
use crate::adapter::{listing_records, records, events_from_page, SourceAdapter};
use crate::event::Event;
use crate::fanout::{initial_slot, outcome_record, FanOut};
use crate::registry::{has_detail_pages, is_source, listing_url_of, registered_adapter, Registry};

verus! {

/// Why a request produced no events.
#[derive(Clone, Copy, Debug, PartialEq, Eq, Structural)]
pub enum Failure {
    /// No source is registered under the name: a client error.
    UnknownSource,
    /// The listing page could not be fetched.
    Upstream,
}

/// Where a request stands.
pub enum Phase {
    /// The listing page has not been asked for yet.
    NeedListing,
    /// The listing page was asked for.
    AwaitingListing,
    /// Detail pages are being fetched for the listed events.
    Enriching(Vec<Event>, FanOut),
    /// The events are ready.
    Complete(Vec<Event>),
    /// The request failed.
    Failed(Failure),
}

/// What the caller is to do next.
pub enum Action {
    /// Fetch the listing page at this URL and call
    /// [`Request::listing_fetched`].
    FetchListing(String),
    /// Fetch the detail page of the event at this index and call
    /// [`Request::detail_fetched`].
    FetchDetail(usize, String),
    /// Wait for a fetch that is running to report back.
    Wait,
    /// Nothing is left to do: take [`Request::outcome`].
    Done,
}

/// One request for the events of one source.
pub struct Request {
    adapter: Option<SourceAdapter>,
    phase: Phase,
}

impl Request {
    pub closed spec fn phase(self) -> Phase {
        self.phase
    }

    pub closed spec fn adapter(self) -> Option<SourceAdapter> {
        self.adapter
    }

    /// Every phase that fetches has a well-formed adapter, and a batch of
    /// detail fetches covers exactly the listed events.
    pub closed spec fn well_formed(self) -> bool {
        match self.phase {
            Phase::NeedListing | Phase::AwaitingListing => self.adapter matches Some(a)
                && a.well_formed(),
            Phase::Enriching(events, fan) => {
                &&& self.adapter matches Some(a)
                &&& a.well_formed()
                &&& a.detail matches Some(d) && fan.bound() == d.concurrency
                &&& fan.well_formed()
                &&& events@.len() == fan.slots().len()
            },
            _ => true,
        }
    }

    /// While detail pages are fetched, at most the adapter's concurrency
    /// bound of them are in flight, and the batch covers every listed event.
    pub proof fn lemma_fetches_bounded(self)
        requires
            self.well_formed(),
        ensures
            self.phase() matches Phase::Enriching(events, fan) ==> {
                &&& self.adapter() matches Some(a) && a.detail matches Some(d) && fan.bound()
                    == d.concurrency
                &&& fan.in_flight() <= fan.bound()
                &&& events@.len() == fan.slots().len()
            },
    {
        if let Phase::Enriching(events, fan) = self.phase {
            fan.lemma_in_flight_bounded();
        }
    }

    /// Starts a request for the source `name` (exact, case-sensitive match).
    /// An unknown name fails the request at once, before anything is
    /// fetched.
    pub fn start(registry: &Registry, name: &str) -> (r: Request)
        requires
            registry.well_formed(),
        ensures
            r.well_formed(),
            !is_source(name@) ==> r.phase() == Phase::Failed(Failure::UnknownSource),
            is_source(name@) ==> (r.adapter() matches Some(a) && {
                &&& registered_adapter(name@, registry.fallback_year(), a)
                &&& a.name@ == name@
                &&& a.listing_url@ == listing_url_of(name@)
                &&& (a.detail is Some <==> has_detail_pages(name@))
                &&& r.phase() is NeedListing
            }),
    {
        match registry.adapter(name) {
            None => Request { adapter: None, phase: Phase::Failed(Failure::UnknownSource) },
            Some(a) => {
                proof {
                    crate::registry::lemma_registered_facts(name@, registry.fallback_year(), a);
                }
                Request { adapter: Some(a), phase: Phase::NeedListing }
            },
        }
    }

    /// Decides the next step. A failed or complete request is done; a new
    /// one asks for its listing page; a request that is fetching detail
    /// pages hands out the next fetch while fewer than the bound are
    /// running, waits otherwise, and reassembles the events by index once
    /// every fetch has reported back.
    pub fn next_action(&mut self) -> (r: Action)
        requires
            old(self).well_formed(),
        ensures
            final(self).well_formed(),
            final(self).adapter() == old(self).adapter(),
            match old(self).phase() {
                Phase::Failed(_) | Phase::Complete(_) => r is Done && final(self).phase()
                    == old(self).phase(),
                Phase::NeedListing => {
                    &&& r matches Action::FetchListing(url) && old(self).adapter() matches Some(a)
                        && url@ == a.listing_url@
                    &&& final(self).phase() is AwaitingListing
                },
                Phase::AwaitingListing => r is Wait && final(self).phase() == old(self).phase(),
                Phase::Enriching(events, fan) => match r {
                    Action::FetchDetail(i, url) => final(self).phase() matches Phase::Enriching(
                        e2,
                        f2,
                    ) && {
                        &&& e2 == events
                        &&& i < fan.slots().len()
                        &&& fan.slots()[i as int] is Queued
                        &&& url@ == fan.urls()[i as int]
                        &&& f2.slots() == fan.slots().update(i as int, crate::fanout::Slot::Running)
                        &&& f2.urls() == fan.urls()
                        &&& fan.in_flight() < fan.bound()
                        &&& f2.in_flight() == fan.in_flight() + 1
                    },
                    Action::Wait => final(self).phase() matches Phase::Enriching(e2, f2) && {
                        &&& e2 == events
                        &&& f2.slots() == fan.slots()
                        &&& f2.urls() == fan.urls()
                        &&& f2.in_flight() == fan.in_flight()
                        &&& !fan.finished()
                    },
                    Action::Done => final(self).phase() matches Phase::Complete(out) && {
                        &&& fan.finished()
                        &&& out@.len() == events@.len()
                        &&& old(self).adapter() matches Some(a) && a.detail matches Some(d)
                            && forall|i: int|
                            0 <= i < events@.len() ==> #[trigger] out@[i]@ == outcome_record(
                                events@[i]@,
                                fan.slots()[i],
                                d,
                            )
                    },
                    Action::FetchListing(_) => false,
                },
            },
    {
        let mut phase = Phase::AwaitingListing;
        std::mem::swap(&mut phase, &mut self.phase);
        match phase {
            Phase::NeedListing => {
                let url = match &self.adapter {
                    Some(a) => a.listing_url.clone(),
                    None => String::new(),
                };
                self.phase = Phase::AwaitingListing;
                Action::FetchListing(url)
            },
            Phase::AwaitingListing => {
                self.phase = Phase::AwaitingListing;
                Action::Wait
            },
            Phase::Enriching(events, mut fan) => {
                match fan.next_request() {
                    Some((i, url)) => {
                        self.phase = Phase::Enriching(events, fan);
                        Action::FetchDetail(i, url)
                    },
                    None => {
                        if fan.is_finished() {
                            let out = match &self.adapter {
                                Some(a) => match &a.detail {
                                    Some(d) => fan.finish(events, d),
                                    None => events,
                                },
                                None => events,
                            };
                            self.phase = Phase::Complete(out);
                            Action::Done
                        } else {
                            self.phase = Phase::Enriching(events, fan);
                            Action::Wait
                        }
                    },
                }
            },
            other => {
                self.phase = other;
                Action::Done
            },
        }
    }

    /// Hands the request the listing page, or `None` where it could not be
    /// fetched (a transport error or a non-2xx status), which fails the
    /// request. The page yields one partial event per container, in document
    /// order; a source with detail pages then schedules one fetch per event
    /// that has a URL. Ignored, with `false` returned, unless the listing page
    /// was asked for.
    pub fn listing_fetched(&mut self, page: Option<String>) -> (r: bool)
        requires
            old(self).well_formed(),
        ensures
            final(self).well_formed(),
            final(self).adapter() == old(self).adapter(),
            r == old(self).phase() is AwaitingListing,
            !r ==> final(self).phase() == old(self).phase(),
            r ==> match page {
                None => final(self).phase() == Phase::Failed(Failure::Upstream),
                Some(p) => old(self).adapter() matches Some(a) && match a.detail {
                    None => final(self).phase() matches Phase::Complete(events) && records(
                        events@,
                    ) == listing_records(a, p@),
                    Some(d) => final(self).phase() matches Phase::Enriching(events, fan) && {
                        &&& records(events@) == listing_records(a, p@)
                        &&& fan.bound() == d.concurrency
                        &&& fan.in_flight() == 0
                        &&& forall|i: int|
                            0 <= i < events@.len() ==> #[trigger] fan.urls()[i] == events@[i].url@
                        &&& forall|i: int|
                            0 <= i < events@.len() ==> initial_slot(
                                events@[i].url@,
                                #[trigger] fan.slots()[i],
                            )
                    },
                },
            },
    {
        if let Phase::AwaitingListing = self.phase {
            match page {
                None => {
                    self.phase = Phase::Failed(Failure::Upstream);
                },
                Some(p) => {
                    match &self.adapter {
                        Some(a) => {
                            let events = events_from_page(a, p.as_str());
                            match &a.detail {
                                Some(d) => {
                                    let fan = FanOut::new(&events, d.concurrency);
                                    self.phase = Phase::Enriching(events, fan);
                                },
                                None => {
                                    self.phase = Phase::Complete(events);
                                },
                            }
                        },
                        None => {},
                    }
                },
            }
            true
        } else {
            false
        }
    }

    /// Hands the request the outcome of the detail fetch for event `index`:
    /// the page, or `None` where the fetch failed, which leaves that event as
    /// it was listed. Outcomes are filed by index, whatever order they
    /// arrive in. Ignored, with `false` returned, unless that fetch is
    /// running.
    pub fn detail_fetched(&mut self, index: usize, outcome: Option<String>) -> (r: bool)
        requires
            old(self).well_formed(),
        ensures
            final(self).well_formed(),
            final(self).adapter() == old(self).adapter(),
            !r ==> final(self).phase() == old(self).phase(),
            match old(self).phase() {
                Phase::Enriching(events, fan) => {
                    &&& r == (index < fan.slots().len() && fan.slots()[index as int] is Running)
                    &&& r ==> (final(self).phase() matches Phase::Enriching(e2, f2) && {
                        &&& e2 == events
                        &&& f2.urls() == fan.urls()
                        &&& f2.in_flight() + 1 == fan.in_flight()
                        &&& f2.slots() == fan.slots().update(
                            index as int,
                            match outcome {
                                Some(page) => crate::fanout::Slot::Fetched(page),
                                None => crate::fanout::Slot::Failed,
                            },
                        )
                    })
                },
                _ => !r,
            },
    {
        let mut phase = Phase::AwaitingListing;
        std::mem::swap(&mut phase, &mut self.phase);
        match phase {
            Phase::Enriching(events, mut fan) => {
                let accepted = fan.complete(index, outcome);
                self.phase = Phase::Enriching(events, fan);
                accepted
            },
            other => {
                self.phase = other;
                false
            },
        }
    }

    /// The result of a finished request: the events in listing order, or
    /// the failure. `None` while the request is still running.
    pub fn outcome(self) -> (r: Option<Result<Vec<Event>, Failure>>)
        ensures
            match self.phase() {
                Phase::Complete(events) => r == Some(Ok::<Vec<Event>, Failure>(events)),
                Phase::Failed(f) => r == Some(Err::<Vec<Event>, Failure>(f)),
                _ => r is None,
            },
    {
        match self.phase {
            Phase::Complete(events) => Some(Ok(events)),
            Phase::Failed(f) => Some(Err(f)),
            _ => None,
        }
    }
}

} // verus!
