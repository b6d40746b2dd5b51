//! The collision dispatcher: the per-frame queue of collision transition
//! events is drained fully and exactly once, and every well-formed
//! "contact ended" event yields exactly one sound request.
//!
//! No filtering by body identity is done: any two bodies that stop touching
//! yield a cue.  That is a deliberate, documented simplification, not an
//! invariant callers may rely on for scoring.
//! An event with a missing participant identity is malformed: it is
//! skipped and counted, never fatal.

use vstd::prelude::*;

verus! {

/// The kind of contact transition a collision event reports.
#[derive(Clone, Copy, PartialEq, Eq, Structural, Debug)]
pub enum ContactKind {
    /// Two bodies began touching.
    Started,
    /// Two previously touching bodies stopped touching.
    Stopped,
}

/// One collision transition between two body identities, valid only for
/// the frame it was produced in and consumed at most once.  A missing
/// identity marks the event malformed.
#[derive(Clone, Copy, Debug)]
pub struct CollisionEvent {
    pub kind: ContactKind,
    pub body_a: Option<u64>,
    pub body_b: Option<u64>,
}

/// A queued request to play the contact cue, carrying the two participants
/// for any downstream consumer that does want to filter.
#[derive(Clone, Copy, PartialEq, Eq, Structural, Debug)]
pub struct SoundRequest {
    pub body_a: u64,
    pub body_b: u64,
}

/// Both participant identities are present.
pub open spec fn event_well_formed(e: CollisionEvent) -> bool {
    e.body_a.is_some() && e.body_b.is_some()
}

/// The event yields a sound: a well-formed "contact ended" transition.
pub open spec fn yields_sound(e: CollisionEvent) -> bool {
    e.kind == ContactKind::Stopped && event_well_formed(e)
}

/// The sound request a sound-yielding event turns into.
pub open spec fn sound_for(e: CollisionEvent) -> SoundRequest
    recommends
        yields_sound(e),
{
    match (e.body_a, e.body_b) {
        (Some(a), Some(b)) => SoundRequest { body_a: a, body_b: b },
        _ => SoundRequest { body_a: 0, body_b: 0 },
    }
}

/// The sound requests produced by the first `k` events of a queue, in
/// queue order.
pub open spec fn sounds_for_prefix(events: Seq<CollisionEvent>, k: int) -> Seq<SoundRequest>
    decreases k,
{
    if k <= 0 {
        Seq::empty()
    } else if yields_sound(events[k - 1]) {
        sounds_for_prefix(events, k - 1).push(sound_for(events[k - 1]))
    } else {
        sounds_for_prefix(events, k - 1)
    }
}

/// The sound requests one full drain of a queue produces.
pub open spec fn sounds_for(events: Seq<CollisionEvent>) -> Seq<SoundRequest> {
    sounds_for_prefix(events, events.len() as int)
}

/// How many of the first `k` events yield a sound.
pub open spec fn sound_count_prefix(events: Seq<CollisionEvent>, k: int) -> int
    decreases k,
{
    if k <= 0 {
        0
    } else {
        sound_count_prefix(events, k - 1) + if yields_sound(events[k - 1]) {
            1int
        } else {
            0int
        }
    }
}

/// How many events of a queue yield a sound.
pub open spec fn sound_count(events: Seq<CollisionEvent>) -> int {
    sound_count_prefix(events, events.len() as int)
}

/// How many of the first `k` events are malformed.
pub open spec fn malformed_count_prefix(events: Seq<CollisionEvent>, k: int) -> int
    decreases k,
{
    if k <= 0 {
        0
    } else {
        malformed_count_prefix(events, k - 1) + if !event_well_formed(events[k - 1]) {
            1int
        } else {
            0int
        }
    }
}

/// How many events of a queue are malformed.
pub open spec fn malformed_count(events: Seq<CollisionEvent>) -> int {
    malformed_count_prefix(events, events.len() as int)
}

/// One sound per contact end: a drain produces exactly as many sound
/// requests as the queue holds sound-yielding events.
pub proof fn lemma_one_sound_per_contact_end(events: Seq<CollisionEvent>)
    ensures
        sounds_for(events).len() == sound_count(events),
{
    lemma_sound_counts_agree(events, events.len() as int);
}

proof fn lemma_sound_counts_agree(events: Seq<CollisionEvent>, k: int)
    requires
        0 <= k <= events.len(),
    ensures
        sounds_for_prefix(events, k).len() == sound_count_prefix(events, k),
    decreases k,
{
    if k > 0 {
        lemma_sound_counts_agree(events, k - 1);
    }
}

/// A drained queue yields nothing: reading the same frame's queue a second
/// time produces no sounds and counts no malformed events.
pub proof fn lemma_second_drain_yields_nothing(events: Seq<CollisionEvent>)
    requires
        events.len() == 0,
    ensures
        sounds_for(events).len() == 0,
        malformed_count(events) == 0,
{
}

/// The per-frame channel of collision events, filled by whoever observes
/// the physics step and drained exactly once per frame by the dispatcher.
/// Events are never buffered across frames.
pub struct EventQueue {
    events: Vec<CollisionEvent>,
}

impl View for EventQueue {
    type V = Seq<CollisionEvent>;

    closed spec fn view(&self) -> Seq<CollisionEvent> {
        self.events@
    }
}

/// What one drain of the queue produced: the queued sound requests and the
/// count of malformed events that were skipped.
pub struct DispatchOutcome {
    pub sounds: Vec<SoundRequest>,
    pub malformed: usize,
}

impl EventQueue {
    /// An empty channel.
    pub fn new() -> (q: EventQueue)
        ensures
            q@ == Seq::<CollisionEvent>::empty(),
    {
        EventQueue { events: Vec::new() }
    }

    /// Appends one event reported by the physics step.
    pub fn push(&mut self, e: CollisionEvent)
        ensures
            final(self)@ == old(self)@.push(e),
    {
        self.events.push(e);
    }

    /// How many events are waiting.
    pub fn len(&self) -> (n: usize)
        ensures
            n == self@.len(),
    {
        self.events.len()
    }

    /// Drains the queue fully and exactly once: every waiting event is
    /// consumed, every sound-yielding event becomes one sound request (in
    /// queue order, carrying its two participants), every malformed event
    /// is skipped and counted, and the queue is left empty, so a second
    /// drain within the frame yields nothing.
    pub fn dispatch(&mut self) -> (out: DispatchOutcome)
        ensures
            out.sounds@ == sounds_for(old(self)@),
            out.malformed == malformed_count(old(self)@),
            final(self)@.len() == 0,
    {
        let mut sounds: Vec<SoundRequest> = Vec::new();
        let mut malformed: usize = 0;
        let n: usize = self.events.len();
        let mut i: usize = 0;
        while i < n
            invariant
                i <= n,
                n == self.events.len(),
                self.events@ == old(self).events@,
                sounds@ == sounds_for_prefix(old(self)@, i as int),
                malformed == malformed_count_prefix(old(self)@, i as int),
                malformed <= i,
            decreases n - i,
        {
            let e: CollisionEvent = self.events[i];
            if e.body_a.is_none() || e.body_b.is_none() {
                malformed = malformed + 1;
            } else if matches!(e.kind, ContactKind::Stopped) {
                let a: u64 = e.body_a.unwrap();
                let b: u64 = e.body_b.unwrap();
                sounds.push(SoundRequest { body_a: a, body_b: b });
            }
            i = i + 1;
        }
        self.events = Vec::new();
        DispatchOutcome { sounds, malformed }
    }
}

} // verus!
