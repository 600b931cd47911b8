//! The event log of one request.

use vstd::prelude::*;
use crate::clock::{elapsed, elapsed_ms, now_millis};
use crate::ids::{fresh_uuid, is_uuid_text};

verus! {

/// What an event of a trace is about.
#[derive(Debug, Clone, Copy, PartialEq, Eq, Structural)]
pub enum EventCategory {
    Info,
    Chaos,
    Payment,
    Upstream,
    Error,
}

/// One entry of a trace. `timestamp` is in milliseconds since the Unix epoch.
#[derive(Debug)]
pub struct TraceEvent {
    pub timestamp: i64,
    pub category: EventCategory,
    pub message: String,
}

/// A [`TraceEvent`] as a mathematical value.
pub struct TraceEventView {
    pub timestamp: i64,
    pub category: EventCategory,
    pub message: Seq<char>,
}

impl View for TraceEvent {
    type V = TraceEventView;

    open spec fn view(&self) -> TraceEventView {
        TraceEventView { timestamp: self.timestamp, category: self.category, message: self.message@ }
    }
}

impl Clone for TraceEvent {
    fn clone(&self) -> (r: Self)
        ensures
            r@ == self@,
    {
        TraceEvent {
            timestamp: self.timestamp,
            category: self.category,
            message: self.message.clone(),
        }
    }
}

/// The record of one request: who asked for what, when, how it ended, and what
/// happened on the way. Times are in milliseconds since the Unix epoch.
#[derive(Debug)]
pub struct Trace {
    pub id: String,
    pub agent_id: String,
    pub method: String,
    pub url: String,
    pub start_time: i64,
    pub end_time: Option<i64>,
    pub duration_ms: Option<u64>,
    pub status_code: Option<u16>,
    pub events: Vec<TraceEvent>,
}

/// A [`Trace`] as a mathematical value.
pub struct TraceView {
    pub id: Seq<char>,
    pub agent_id: Seq<char>,
    pub method: Seq<char>,
    pub url: Seq<char>,
    pub start_time: i64,
    pub end_time: Option<i64>,
    pub duration_ms: Option<u64>,
    pub status_code: Option<u16>,
    pub events: Seq<TraceEventView>,
}

impl TraceView {
    /// Not finished yet: no end, no duration, no status.
    pub open spec fn is_live(self) -> bool {
        self.end_time is None && self.duration_ms is None && self.status_code is None
    }

    /// Finished: end, duration and status are set, and the duration is the time from
    /// start to end.
    pub open spec fn is_complete(self) -> bool {
        &&& self.end_time is Some
        &&& self.status_code is Some
        &&& self.duration_ms == Some(elapsed_ms(self.start_time, self.end_time->0))
    }

    /// The trace with one more event at its end.
    pub open spec fn with_event(self, timestamp: i64, category: EventCategory, message: Seq<char>) -> TraceView {
        TraceView {
            events: self.events.push(TraceEventView { timestamp, category, message }),
            ..self
        }
    }

    /// The trace finished at `now` with `status`.
    pub open spec fn finished(self, status: u16, now: i64) -> TraceView {
        TraceView {
            end_time: Some(now),
            duration_ms: Some(elapsed_ms(self.start_time, now)),
            status_code: Some(status),
            ..self
        }
    }

    /// The categories of the events, in order.
    pub open spec fn categories(self) -> Seq<EventCategory> {
        self.events.map_values(|e: TraceEventView| e.category)
    }

    /// The messages of the events, in order.
    pub open spec fn messages(self) -> Seq<Seq<char>> {
        self.events.map_values(|e: TraceEventView| e.message)
    }
}

impl View for Trace {
    type V = TraceView;

    open spec fn view(&self) -> TraceView {
        TraceView {
            id: self.id@,
            agent_id: self.agent_id@,
            method: self.method@,
            url: self.url@,
            start_time: self.start_time,
            end_time: self.end_time,
            duration_ms: self.duration_ms,
            status_code: self.status_code,
            events: self.events@.map_values(|e: TraceEvent| e@),
        }
    }
}

impl Clone for Trace {
    fn clone(&self) -> (r: Self)
        ensures
            r@ == self@,
    {
        let mut events: Vec<TraceEvent> = Vec::new();
        let mut i: usize = 0;
        while i < self.events.len()
            invariant
                i <= self.events.len(),
                events@.len() == i,
                forall|k: int| 0 <= k < i ==> events@[k]@ == self.events@[k]@,
            decreases self.events.len() - i,
        {
            events.push(self.events[i].clone());
            i += 1;
        }
        assert(events@.map_values(|e: TraceEvent| e@) =~= self.events@.map_values(|e: TraceEvent| e@));
        Trace {
            id: self.id.clone(),
            agent_id: self.agent_id.clone(),
            method: self.method.clone(),
            url: self.url.clone(),
            start_time: self.start_time,
            end_time: self.end_time,
            duration_ms: self.duration_ms,
            status_code: self.status_code,
            events,
        }
    }
}

impl Trace {
    /// A live trace with the given identifier and start time, and no events.
    pub fn started(id: String, agent_id: &str, method: &str, url: &str, now: i64) -> (t: Trace)
        ensures
            t@ == (TraceView {
                id: id@,
                agent_id: agent_id@,
                method: method@,
                url: url@,
                start_time: now,
                end_time: None,
                duration_ms: None,
                status_code: None,
                events: Seq::empty(),
            }),
    {
        let t = Trace {
            id,
            agent_id: agent_id.to_owned(),
            method: method.to_owned(),
            url: url.to_owned(),
            start_time: now,
            end_time: None,
            duration_ms: None,
            status_code: None,
            events: Vec::new(),
        };
        assert(t.events@.map_values(|e: TraceEvent| e@) =~= Seq::empty());
        t
    }

    /// A live trace that starts now, under a new random identifier.
    pub fn new(agent_id: &str, method: &str, url: &str) -> (t: Trace)
        ensures
            is_uuid_text(t@.id),
            t@.agent_id == agent_id@,
            t@.method == method@,
            t@.url == url@,
            t@.is_live(),
            t@.events.len() == 0,
    {
        let id = fresh_uuid();
        let now = now_millis();
        Trace::started(id, agent_id, method, url, now)
    }

    /// Appends an event with the given timestamp.
    pub fn log_at(&mut self, category: EventCategory, message: &str, now: i64)
        ensures
            final(self)@ == old(self)@.with_event(now, category, message@),
    {
        self.events.push(TraceEvent { timestamp: now, category, message: message.to_owned() });
        assert(final(self).events@.map_values(|e: TraceEvent| e@) =~= old(self).events@.map_values(
            |e: TraceEvent| e@,
        ).push(TraceEventView { timestamp: now, category, message: message@ }));
    }

    /// Appends an event stamped with the current time.
    pub fn log(&mut self, category: EventCategory, message: &str)
        ensures
            exists|now: i64| final(self)@ == old(self)@.with_event(now, category, message@),
    {
        let now = now_millis();
        self.log_at(category, message, now);
    }

    /// Records the end of the request at `now`: end time, duration and status. A
    /// trace is finished once: this takes a live trace.
    pub fn finish_at(&mut self, status: u16, now: i64)
        requires
            old(self)@.is_live(),
        ensures
            final(self)@ == old(self)@.finished(status, now),
            final(self)@.is_complete(),
    {
        self.end_time = Some(now);
        self.duration_ms = Some(elapsed(self.start_time, now));
        self.status_code = Some(status);
    }

    /// Records the end of the request at the current time. A trace is finished
    /// once: this takes a live trace.
    pub fn finish(&mut self, status: u16)
        requires
            old(self)@.is_live(),
        ensures
            exists|now: i64| final(self)@ == old(self)@.finished(status, now),
            final(self)@.is_complete(),
            final(self)@.status_code == Some(status),
    {
        let now = now_millis();
        self.finish_at(status, now);
    }
}

} // verus!
