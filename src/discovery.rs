use vstd::prelude::*;

verus! {

/// The service type browsed for on the local network; the host application
/// announces itself under this exact type.
pub const SERVICE_TYPE: &'static str = "_elixir-media._tcp.local.";

/// The discovery window used when the caller gives none, in milliseconds.
pub const DEFAULT_TIMEOUT_MS: u64 = 1200;

/// The longest single wait for the next event, in milliseconds.
pub const POLL_WAIT_MS: u64 = 200;

/// One resolved service: its fully-qualified name (the key), its host name,
/// its port and its addresses in the order they were reported.
pub struct DiscoveryRecord {
    pub name: String,
    pub host: String,
    pub port: u16,
    pub addresses: Vec<String>,
}

/// What one poll of the browse subscription produced.
pub enum DiscoveryEvent {
    /// A service instance was fully resolved.
    Resolved(DiscoveryRecord),
    /// Any other event (search started, service found, removed, ...).
    Other,
    /// The subscription channel failed or was closed.
    ChannelClosed,
}

/// Whether some record of `s` carries the name `n`.
pub open spec fn has_name(s: Seq<DiscoveryRecord>, n: Seq<char>) -> bool {
    exists|i: int| 0 <= i < s.len() && #[trigger] s[i].name@ == n
}

/// Adds `r` to `s` unless a record of the same name is already there.
pub open spec fn merged(s: Seq<DiscoveryRecord>, r: DiscoveryRecord) -> Seq<DiscoveryRecord> {
    if has_name(s, r.name@) {
        s
    } else {
        s.push(r)
    }
}

/// Whether the channel closed somewhere in `events`.
pub open spec fn closed_in(events: Seq<DiscoveryEvent>) -> bool {
    exists|i: int| 0 <= i < events.len() && #[trigger] events[i] is ChannelClosed
}

/// The records that a run has gathered after `events`: each resolution is
/// kept unless its name was seen before, and nothing counts after a closure.
pub open spec fn collected(events: Seq<DiscoveryEvent>) -> Seq<DiscoveryRecord>
    decreases events.len(),
{
    if events.len() == 0 {
        Seq::empty()
    } else {
        let prev = collected(events.drop_last());
        match events.last() {
            DiscoveryEvent::Resolved(r) => if closed_in(events.drop_last()) {
                prev
            } else {
                merged(prev, r)
            },
            _ => prev,
        }
    }
}

/// A run in which no service was resolved gathers no record.
pub proof fn lemma_no_resolution_no_records(events: Seq<DiscoveryEvent>)
    requires
        forall|i: int| 0 <= i < events.len() ==> !(#[trigger] events[i] is Resolved),
    ensures
        collected(events) == Seq::<DiscoveryRecord>::empty(),
    decreases events.len(),
{
    if events.len() > 0 {
        lemma_no_resolution_no_records(events.drop_last());
        assert(!(events[events.len() - 1] is Resolved));
    }
}

/// Every gathered record is the record of some resolution event of the run.
pub proof fn lemma_records_come_from_events(events: Seq<DiscoveryEvent>)
    ensures
        forall|i: int|
            0 <= i < collected(events).len() ==> exists|j: int|
                0 <= j < events.len() && #[trigger] events[j] == DiscoveryEvent::Resolved(
                    #[trigger] collected(events)[i],
                ),
    decreases events.len(),
{
    if events.len() > 0 {
        let prev = events.drop_last();
        lemma_records_come_from_events(prev);
        assert forall|i: int| 0 <= i < collected(events).len() implies exists|j: int|
            0 <= j < events.len() && #[trigger] events[j] == DiscoveryEvent::Resolved(
                #[trigger] collected(events)[i],
            ) by {
            if i < collected(prev).len() {
                let j = choose|j: int|
                    0 <= j < prev.len() && #[trigger] prev[j] == DiscoveryEvent::Resolved(
                        collected(prev)[i],
                    );
                assert(events[j] == prev[j]);
            } else {
                assert(events[events.len() - 1] == DiscoveryEvent::Resolved(collected(events)[i]));
            }
        }
    }
}

/// No two gathered records share a name.
pub proof fn lemma_names_unique(events: Seq<DiscoveryEvent>)
    ensures
        forall|a: int, b: int|
            0 <= a < collected(events).len() && 0 <= b < collected(events).len() && a != b
                ==> #[trigger] collected(events)[a].name@ != #[trigger] collected(events)[b].name@,
    decreases events.len(),
{
    if events.len() > 0 {
        let prev = events.drop_last();
        lemma_names_unique(prev);
        let c = collected(events);
        let p = collected(prev);
        assert forall|a: int, b: int|
            0 <= a < c.len() && 0 <= b < c.len() && a != b implies #[trigger] c[a].name@
                != #[trigger] c[b].name@ by {
            if a < p.len() && b < p.len() {
                assert(c[a] == p[a] && c[b] == p[b]);
            } else if a < p.len() {
                assert(c[a] == p[a]);
                assert(!has_name(p, c[b].name@));
            } else {
                assert(c[b] == p[b]);
                assert(!has_name(p, c[a].name@));
            }
        }
    }
}

/// A gathered record stays gathered, at its place, whatever events follow.
proof fn lemma_collected_prefix(events: Seq<DiscoveryEvent>, k: int)
    requires
        0 <= k <= events.len(),
    ensures
        collected(events.take(k)).len() <= collected(events).len(),
        forall|i: int|
            0 <= i < collected(events.take(k)).len() ==> #[trigger] collected(events)[i]
                == collected(events.take(k))[i],
    decreases events.len() - k,
{
    if k < events.len() {
        lemma_collected_prefix(events, k + 1);
        let t = events.take(k + 1);
        assert(t.drop_last() == events.take(k));
    } else {
        assert(events.take(k) == events);
    }
}

/// When several resolutions share a name, the run keeps exactly one record
/// of that name: the first one resolved before the channel closed.
pub proof fn lemma_first_resolution_kept(events: Seq<DiscoveryEvent>, k: int, r: DiscoveryRecord)
    requires
        0 <= k < events.len(),
        events[k] == DiscoveryEvent::Resolved(r),
        !closed_in(events.take(k)),
        forall|j: int|
            0 <= j < k && (#[trigger] events[j] is Resolved) ==> events[j]->Resolved_0.name@
                != r.name@,
    ensures
        exists|i: int| 0 <= i < collected(events).len() && collected(events)[i] == r,
        forall|i: int|
            0 <= i < collected(events).len() && (#[trigger] collected(events)[i]).name@ == r.name@
                ==> collected(events)[i] == r,
{
    let t = events.take(k + 1);
    let before = events.take(k);
    assert(t.drop_last() == before);
    lemma_records_come_from_events(before);
    if has_name(collected(before), r.name@) {
        let i = choose|i: int|
            0 <= i < collected(before).len() && #[trigger] collected(before)[i].name@ == r.name@;
        let j = choose|j: int|
            0 <= j < before.len() && #[trigger] before[j] == DiscoveryEvent::Resolved(
                collected(before)[i],
            );
        assert(events[j] == before[j]);
    }
    let idx = collected(before).len() as int;
    assert(collected(t)[idx] == r);
    lemma_collected_prefix(events, k + 1);
    lemma_names_unique(events);
    assert(collected(events)[idx] == r);
}

/// One bounded discovery run: the events seen so far and what they gathered.
pub struct DiscoverySession {
    timeout_ms: u64,
    records: Vec<DiscoveryRecord>,
    closed: bool,
    events: Ghost<Seq<DiscoveryEvent>>,
}

impl DiscoverySession {
    /// The events handed to the session so far.
    pub closed spec fn history(&self) -> Seq<DiscoveryEvent> {
        self.events@
    }

    /// The overall time budget of the run, in milliseconds.
    pub closed spec fn budget(&self) -> u64 {
        self.timeout_ms
    }

    /// The records gathered so far, in order of first resolution.
    pub closed spec fn found(&self) -> Seq<DiscoveryRecord> {
        self.records@
    }

    /// Whether the subscription has closed, ending the run early.
    pub closed spec fn is_closed(&self) -> bool {
        self.closed
    }

    pub closed spec fn wf(&self) -> bool {
        &&& self.records@ == collected(self.events@)
        &&& self.closed == closed_in(self.events@)
    }

    /// Starts a run with the given budget, or the default one.
    pub fn new(timeout_ms: Option<u64>) -> (s: Self)
        ensures
            s.wf(),
            s.history() == Seq::<DiscoveryEvent>::empty(),
            s.found() == Seq::<DiscoveryRecord>::empty(),
            !s.is_closed(),
            s.budget() == match timeout_ms {
                Some(t) => t,
                None => DEFAULT_TIMEOUT_MS,
            },
    {
        let t = match timeout_ms {
            Some(t) => t,
            None => DEFAULT_TIMEOUT_MS,
        };
        DiscoverySession {
            timeout_ms: t,
            records: Vec::new(),
            closed: false,
            events: Ghost(Seq::empty()),
        }
    }

    /// How long to wait for the next event once `elapsed_ms` of the budget
    /// has passed, or `None` when the run is over (budget spent or channel
    /// closed). A wait never reaches past the end of the budget.
    pub fn next_wait(&self, elapsed_ms: u64) -> (w: Option<u64>)
        requires
            self.wf(),
        ensures
            w is None <==> (self.is_closed() || elapsed_ms >= self.budget()),
            w matches Some(ms) ==> {
                &&& elapsed_ms + ms <= self.budget()
                &&& ms == if self.budget() - elapsed_ms < POLL_WAIT_MS {
                    (self.budget() - elapsed_ms) as u64
                } else {
                    POLL_WAIT_MS
                }
            },
    {
        if self.closed || elapsed_ms >= self.timeout_ms {
            None
        } else {
            let left = self.timeout_ms - elapsed_ms;
            if left < POLL_WAIT_MS {
                Some(left)
            } else {
                Some(POLL_WAIT_MS)
            }
        }
    }

    /// Takes in the next event of the subscription.
    pub fn on_event(&mut self, event: DiscoveryEvent)
        requires
            old(self).wf(),
        ensures
            final(self).wf(),
            final(self).budget() == old(self).budget(),
            final(self).history() == old(self).history().push(event),
            final(self).is_closed() == (old(self).is_closed() || event is ChannelClosed),
            final(self).found() == match event {
                DiscoveryEvent::Resolved(r) => if old(self).is_closed() {
                    old(self).found()
                } else {
                    merged(old(self).found(), r)
                },
                _ => old(self).found(),
            },
    {
        let ghost prev = self.events@;
        let ghost ev = event;
        proof {
            self.events = Ghost(prev.push(ev));
            assert(self.events@.drop_last() == prev);
        }
        match event {
            DiscoveryEvent::Resolved(r) => {
                if !self.closed {
                    if !contains_name(&self.records, &r.name) {
                        self.records.push(r);
                    }
                }
            },
            DiscoveryEvent::Other => {},
            DiscoveryEvent::ChannelClosed => {
                self.closed = true;
                assert(self.events@[self.events@.len() - 1] is ChannelClosed);
            },
        }
        proof {
            if !(ev is ChannelClosed) {
                if closed_in(self.events@) {
                    let i = choose|i: int| 0 <= i < self.events@.len() && #[trigger] self.events@[i] is ChannelClosed;
                    assert(prev[i] is ChannelClosed);
                }
            }
        }
    }

    /// Ends the run and hands out what it gathered.
    pub fn finish(self) -> (r: Vec<DiscoveryRecord>)
        requires
            self.wf(),
        ensures
            r@ == self.found(),
            r@ == collected(self.history()),
    {
        self.records
    }
}

/// Whether `records` holds one named `name`.
fn contains_name(records: &Vec<DiscoveryRecord>, name: &String) -> (r: bool)
    ensures
        r == has_name(records@, name@),
{
    let mut i: usize = 0;
    while i < records.len()
        invariant
            i <= records.len(),
            forall|j: int| 0 <= j < i ==> records@[j].name@ != name@,
        decreases records.len() - i,
    {
        if records[i].name == *name {
            return true;
        }
        i = i + 1;
    }
    false
}

} // verus!
