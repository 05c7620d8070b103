//! The data the handshake run produces: directional protocol events, the
//! append-only event chain with its completion flag, the run's parameters,
//! its error type and its final result.

use vstd::prelude::*;

verus! {

/// The parameters one run is started with: the remote address and the local
/// user-agent string. Validation of the address is the caller's concern.
#[derive(Clone)]
pub struct HandshakeParams {
    pub address: String,
    pub user_agent: String,
}

/// The error a failed run reports, carrying its cause as text.
pub struct HSError {
    pub err_message: String,
}

impl View for HSError {
    type V = Seq<char>;

    closed spec fn view(&self) -> Seq<char> {
        self.err_message@
    }
}

impl HSError {
    pub fn new(err_message: String) -> (e: HSError)
        ensures
            e@ == err_message@,
    {
        HSError { err_message }
    }

    /// The error of a stream that closed in the middle of a frame.
    pub fn connection_reset() -> (e: HSError)
        ensures
            e@ == "connection reset by peer"@,
    {
        HSError { err_message: String::from_str("connection reset by peer") }
    }

    pub fn message(&self) -> (m: &str)
        ensures
            m@ == self@,
    {
        self.err_message.as_str()
    }
}

/// Whether a recorded event describes an inbound or an outbound message.
#[derive(Clone, Copy, PartialEq, Eq, Structural, Debug)]
pub enum EventDirection {
    IN,
    OUT,
}

/// One directional, timestamped record of a protocol message sent or
/// received, with an ordered list of attribute pairs. Immutable once handed
/// to the recorder. Times are milliseconds on a monotonic clock.
pub struct Event {
    name: String,
    time: u64,
    direction: EventDirection,
    data_pairs: Vec<(String, String)>,
}

#[verifier::ext_equal]
pub struct EventView {
    pub name: Seq<char>,
    pub time: u64,
    pub direction: EventDirection,
    pub data: Seq<(Seq<char>, Seq<char>)>,
}

impl View for Event {
    type V = EventView;

    closed spec fn view(&self) -> EventView {
        EventView {
            name: self.name@,
            time: self.time,
            direction: self.direction,
            data: self.data_pairs@.map_values(|p: (String, String)| (p.0@, p.1@)),
        }
    }
}

impl Event {
    pub fn new(name: String, direction: EventDirection, time: u64) -> (e: Event)
        ensures
            e@.name == name@,
            e@.direction == direction,
            e@.time == time,
            e@.data == Seq::<(Seq<char>, Seq<char>)>::empty(),
    {
        let e = Event { name, direction, time, data_pairs: Vec::new() };
        proof {
            assert(e@.data =~= Seq::<(Seq<char>, Seq<char>)>::empty());
        }
        e
    }

    pub fn name(&self) -> (n: &str)
        ensures
            n@ == self@.name,
    {
        self.name.as_str()
    }

    pub fn time(&self) -> (t: u64)
        ensures
            t == self@.time,
    {
        self.time
    }

    pub fn direction(&self) -> (d: &EventDirection)
        ensures
            *d == self@.direction,
    {
        &self.direction
    }

    pub fn data_pairs(&self) -> (d: &Vec<(String, String)>)
        ensures
            d@.map_values(|p: (String, String)| (p.0@, p.1@)) == self@.data,
    {
        &self.data_pairs
    }

    /// Append one attribute pair to the event.
    pub fn set_pair(&mut self, key: String, val: String)
        ensures
            final(self)@ == (EventView { data: old(self)@.data.push((key@, val@)), ..old(self)@ }),
    {
        let ghost prior = self@.data;
        self.data_pairs.push((key, val));
        proof {
            assert(self@.data =~= prior.push((key@, val@)));
            assert(self@ =~= (EventView { data: prior.push((key@, val@)), ..old(self)@ }));
        }
    }
}

/// The append-only log of the events of one handshake attempt, with the
/// completion flag the recorder sets when the handshake finished whole.
pub struct EventChain {
    id: String,
    complete: bool,
    events: Vec<Event>,
}

#[verifier::ext_equal]
pub struct EventChainView {
    pub id: Seq<char>,
    pub complete: bool,
    pub events: Seq<EventView>,
}

impl View for EventChain {
    type V = EventChainView;

    closed spec fn view(&self) -> EventChainView {
        EventChainView {
            id: self.id@,
            complete: self.complete,
            events: self.events@.map_values(|e: Event| e@),
        }
    }
}

impl EventChain {
    pub fn new(id: String) -> (c: EventChain)
        ensures
            c@.id == id@,
            !c@.complete,
            c@.events == Seq::<EventView>::empty(),
    {
        let c = EventChain { id, complete: false, events: Vec::new() };
        proof {
            assert(c@.events =~= Seq::<EventView>::empty());
        }
        c
    }

    /// Append one event; nothing else about the chain changes.
    pub fn add(&mut self, event: Event)
        ensures
            final(self)@ == (EventChainView {
                events: old(self)@.events.push(event@),
                ..old(self)@
            }),
    {
        let ghost prior = self@.events;
        let ghost ev = event@;
        self.events.push(event);
        proof {
            assert(self@.events =~= prior.push(ev));
            assert(self@ =~= (EventChainView { events: prior.push(ev), ..old(self)@ }));
        }
    }

    pub fn len(&self) -> (n: usize)
        ensures
            n == self@.events.len(),
    {
        self.events.len()
    }

    pub fn is_empty(&self) -> (b: bool)
        ensures
            b == (self@.events.len() == 0),
    {
        self.events.len() == 0
    }

    pub fn get(&self, n: usize) -> (r: Option<&Event>)
        ensures
            n < self@.events.len() ==> (r matches Some(e) && e@ == self@.events[n as int]),
            n >= self@.events.len() ==> r is None,
    {
        if n < self.events.len() {
            Some(&self.events[n])
        } else {
            None
        }
    }

    /// Set the completion flag; the events and the identifier are untouched.
    pub fn mark_as_complete(&mut self)
        ensures
            final(self)@ == (EventChainView { complete: true, ..old(self)@ }),
    {
        self.complete = true;
        proof {
            assert(self@ =~= (EventChainView { complete: true, ..old(self)@ }));
        }
    }

    pub fn is_complete(&self) -> (b: bool)
        ensures
            b == self@.complete,
    {
        self.complete
    }

    pub fn id(&self) -> (i: &str)
        ensures
            i@ == self@.id,
    {
        self.id.as_str()
    }
}

/// The time from one monotonic reading to the next, clamped at zero: a
/// monotonic clock never reports a negative span.
pub open spec fn sat_diff(prev: u64, cur: u64) -> u64 {
    if cur >= prev { (cur - prev) as u64 } else { 0 }
}

/// The gap before one event: zero before the first, else the time since the
/// event before it.
pub open spec fn gap_before(events: Seq<EventView>, i: int) -> u64
    recommends
        0 <= i < events.len(),
{
    if i == 0 { 0 } else { sat_diff(events[i - 1].time, events[i].time) }
}

/// The gap before each event of a chain, in order.
pub open spec fn gaps(events: Seq<EventView>) -> Seq<u64> {
    Seq::new(events.len(), |i: int| gap_before(events, i))
}

fn elapsed_since(prev: u64, cur: u64) -> (d: u64)
    ensures
        d == sat_diff(prev, cur),
{
    if cur >= prev { cur - prev } else { 0 }
}

/// The total elapsed time one run reports: from the run's start to the
/// moment the report is made, whether or not the peer ever replied. A run
/// that ended by the timeout thus reports at least the timeout.
pub fn run_total_millis(start: u64, now: u64) -> (t: u64)
    ensures
        t == sat_diff(start, now),
{
    if now >= start { now - start } else { 0 }
}

/// The marker the trace line prints for an event's direction.
pub fn direction_marker(d: &EventDirection) -> (s: &'static str)
    ensures
        *d == EventDirection::IN ==> s@ == "<<<<"@,
        *d == EventDirection::OUT ==> s@ == ">>>"@,
{
    match d {
        EventDirection::IN => "<<<<",
        EventDirection::OUT => ">>>",
    }
}

impl EventChain {
    /// The time from each recorded event to the one before it, in order: what
    /// the trace line reports between neighbouring events.
    pub fn elapsed_times(&self) -> (v: Vec<u64>)
        ensures
            v@ == gaps(self@.events),
    {
        let mut v: Vec<u64> = Vec::new();
        let mut i: usize = 0;
        while i < self.events.len()
            invariant
                i <= self@.events.len(),
                self@.events.len() == self.events@.len(),
                v@.len() == i,
                forall|j: int| 0 <= j < i ==> v@[j] == gap_before(self@.events, j),
            decreases self.events@.len() - i,
        {
            let g = if i == 0 {
                0
            } else {
                elapsed_since(self.events[i - 1].time, self.events[i].time)
            };
            v.push(g);
            i = i + 1;
        }
        proof {
            assert(v@ =~= gaps(self@.events));
        }
        v
    }

}

/// The outcome of one run: the identifier it ran under and either the event
/// chain it produced or the error that ended it.
pub struct HandshakeResult {
    id: String,
    result: Result<EventChain, HSError>,
}

#[verifier::ext_equal]
pub struct HandshakeResultView {
    pub id: Seq<char>,
    pub result: Result<EventChainView, Seq<char>>,
}

impl View for HandshakeResult {
    type V = HandshakeResultView;

    closed spec fn view(&self) -> HandshakeResultView {
        HandshakeResultView {
            id: self.id@,
            result: match &self.result {
                Ok(c) => Ok(c@),
                Err(e) => Err(e@),
            },
        }
    }
}

impl HandshakeResult {
    pub fn new(id: String, result: Result<EventChain, HSError>) -> (r: HandshakeResult)
        ensures
            r@.id == id@,
            result matches Ok(chain) ==> r@.result matches Ok(c) && c == chain@,
            result matches Err(e) ==> r@.result matches Err(m) && m == e@,
    {
        HandshakeResult { id, result }
    }

    pub fn id(&self) -> (i: &str)
        ensures
            i@ == self@.id,
    {
        self.id.as_str()
    }

    pub fn result(&self) -> (r: Result<&EventChain, &HSError>)
        ensures
            self@.result matches Ok(cv) ==> r matches Ok(c) && c@ == cv,
            self@.result matches Err(m) ==> r matches Err(e) && e@ == m,
    {
        match &self.result {
            Ok(c) => Ok(c),
            Err(e) => Err(e),
        }
    }
}

} // verus!
