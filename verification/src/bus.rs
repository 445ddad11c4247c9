//! The event bus: a bounded multi-subscriber broadcast. Abstractly the bus
//! is the log of everything published, in order — that log is the type's
//! view, and each subscription is a cursor into it, created at the log's end
//! so it sees only events published afterwards. Physically the bus retains
//! only the last `EVENT_CAPACITY` events (older ones can never be read
//! again: a cursor behind the retained window is lagged and jumps forward),
//! so memory stays bounded however long the session runs. A subscriber more
//! than `EVENT_CAPACITY` events behind has its oldest unread events dropped
//! and is told how many it missed; publishing never blocks on subscriber
//! behaviour.

use vstd::prelude::*;
use crate::codec::AAPEvent;

verus! {

/// How many unread events a subscription may accumulate before its oldest
/// ones are dropped; also how many events the bus physically retains.
pub const EVENT_CAPACITY: usize = 16;

/// The outcome of one non-blocking read from a subscription.
#[derive(Clone, Copy, Debug, PartialEq, Eq)]
pub enum RecvOutcome {
    /// The next unread event.
    Event(AAPEvent),
    /// The subscriber fell behind and this many of its oldest unread events
    /// were dropped; the next read resumes at the oldest retained event.
    Lagged(usize),
    /// Nothing published beyond the cursor yet.
    Empty,
}

/// The broadcast log. Its view is the sequence of all events published so
/// far, in publish order; in memory only the last `EVENT_CAPACITY` of them
/// are kept.
pub struct EventBus {
    /// The retained tail of the log: the events at positions `base..`.
    recent: Vec<AAPEvent>,
    /// The log position of `recent[0]`: how many events have been evicted.
    base: usize,
    /// The whole abstract log, which the contracts speak of.
    history: Ghost<Seq<AAPEvent>>,
}

/// One subscriber's position in the log: the index of the next event it has
/// not yet read.
pub struct Subscription {
    next: usize,
}

impl Subscription {
    pub closed spec fn cursor(&self) -> nat {
        self.next as nat
    }
}

impl View for EventBus {
    type V = Seq<AAPEvent>;

    closed spec fn view(&self) -> Seq<AAPEvent> {
        self.history@
    }
}

/// What one read does, given the log and a cursor: drop-and-report when the
/// cursor is more than `EVENT_CAPACITY` behind, otherwise hand out the event
/// at the cursor, otherwise report the log exhausted. Returns the outcome
/// and the new cursor.
pub open spec fn spec_recv(events: Seq<AAPEvent>, cursor: nat) -> (RecvOutcome, nat) {
    if cursor > events.len() {
        (RecvOutcome::Empty, cursor)
    } else if events.len() > cursor + (EVENT_CAPACITY as nat) {
        (
            RecvOutcome::Lagged((events.len() - cursor - (EVENT_CAPACITY as nat)) as usize),
            (events.len() - (EVENT_CAPACITY as nat)) as nat,
        )
    } else if cursor < events.len() {
        (RecvOutcome::Event(events[cursor as int]), cursor + 1)
    } else {
        (RecvOutcome::Empty, cursor)
    }
}

impl EventBus {
    /// The retained window is exactly the log's tail from `base`, it never
    /// exceeds `EVENT_CAPACITY` events, eviction only ever happens with the
    /// window full, and every log position fits a machine word.
    #[verifier::type_invariant]
    spec fn inv(self) -> bool {
        &&& self.history@.len() <= usize::MAX
        &&& self.history@.len() == self.base + self.recent@.len()
        &&& self.recent@ == self.history@.subrange(self.base as int, self.history@.len() as int)
        &&& self.recent@.len() <= EVENT_CAPACITY
        &&& (self.base > 0 ==> self.recent@.len() == EVENT_CAPACITY)
    }

    /// A bus with nothing published yet.
    pub fn new() -> (b: EventBus)
        ensures
            b@ == Seq::<AAPEvent>::empty(),
    {
        proof {
            assert(Seq::<AAPEvent>::empty() =~= Seq::<AAPEvent>::empty().subrange(0, 0));
        }
        EventBus { recent: Vec::new(), base: 0, history: Ghost(Seq::empty()) }
    }

    /// Append one event to the log, evicting the oldest retained event once
    /// the window is full. Publishing is never refused for a subscriber's
    /// sake; the one precondition is the machine limit that the log position
    /// fit a word.
    pub fn publish(&mut self, e: AAPEvent)
        requires
            old(self)@.len() < usize::MAX,
        ensures
            final(self)@ == old(self)@.push(e),
    {
        proof {
            use_type_invariant(&*self);
            assert(Seq::<AAPEvent>::empty() =~= Seq::<AAPEvent>::empty().subrange(0, 0));
        }
        let mut tmp = EventBus { recent: Vec::new(), base: 0, history: Ghost(Seq::empty()) };
        core::mem::swap(self, &mut tmp);
        let EventBus { recent, base, history } = tmp;
        let mut recent = recent;
        let ghost new_hist = history@.push(e);
        recent.push(e);
        if recent.len() > EVENT_CAPACITY {
            recent.remove(0);
            proof {
                assert(recent@ =~= new_hist.subrange(base as int + 1, new_hist.len() as int));
            }
            *self = EventBus { recent, base: base + 1, history: Ghost(new_hist) };
        } else {
            proof {
                assert(recent@ =~= new_hist.subrange(base as int, new_hist.len() as int));
            }
            *self = EventBus { recent, base, history: Ghost(new_hist) };
        }
    }

    /// How many events have been published over this bus's lifetime: the
    /// position a new subscription would start at.
    pub fn len(&self) -> (n: usize)
        ensures
            n == self@.len(),
    {
        proof {
            use_type_invariant(&*self);
        }
        self.base + self.recent.len()
    }

    /// A new subscription, positioned at the log's current end: it will
    /// receive every event published after this call and none published
    /// before it.
    pub fn subscribe(&self) -> (s: Subscription)
        ensures
            s.cursor() == self@.len(),
    {
        proof {
            use_type_invariant(&*self);
        }
        Subscription { next: self.base + self.recent.len() }
    }

    /// One non-blocking read for a subscription, exactly as `spec_recv` lays
    /// it out: a lag report when the subscriber fell too far behind, else the
    /// next unread event, else `Empty` (also for a cursor from some other,
    /// longer log: this bus has nothing for it).
    pub fn recv(&self, s: &mut Subscription) -> (r: RecvOutcome)
        ensures
            (r, final(s).cursor()) == spec_recv(self@, old(s).cursor()),
            old(s).cursor() <= self@.len() ==> final(s).cursor() <= self@.len(),
    {
        proof {
            use_type_invariant(&*self);
        }
        if s.next < self.base {
            // behind the retained window: lagged, resume at its oldest event
            let missed = self.base - s.next;
            s.next = self.base;
            RecvOutcome::Lagged(missed)
        } else {
            let rel = s.next - self.base;
            if rel < self.recent.len() {
                let e = self.recent[rel];
                s.next = s.next + 1;
                RecvOutcome::Event(e)
            } else {
                RecvOutcome::Empty
            }
        }
    }
}

/// No replay: a read never reaches behind the cursor, and the cursor never
/// moves back. A subscription created when `n` events were already published
/// starts with cursor `n`, so by this law — applied at every later read,
/// whatever has been published in between — it can yield none of those first
/// `n` events, only ones published after it was created.
pub proof fn lemma_subscription_no_replay(events: Seq<AAPEvent>, n: nat, cursor: nat)
    requires
        n <= cursor,
        cursor <= events.len(),
    ensures
        spec_recv(events, cursor).1 >= n,
        spec_recv(events, cursor).1 >= cursor,
        spec_recv(events, cursor).0 matches RecvOutcome::Event(e) ==> e == events[cursor as int]
            && cursor >= n,
{
}

/// Lag drop: once a subscriber that never reads is more than
/// `EVENT_CAPACITY` events behind, its next read does not stall anything —
/// it reports exactly how many of its oldest unread events were dropped and
/// resynchronizes the cursor to the oldest retained event. The publisher was
/// never held up: `publish` asks nothing of any subscriber's position.
pub proof fn lemma_lag_drop(events: Seq<AAPEvent>, cursor: nat)
    requires
        events.len() > cursor + (EVENT_CAPACITY as nat),
    ensures
        spec_recv(events, cursor).0 == RecvOutcome::Lagged(
            ((events.len() - cursor - (EVENT_CAPACITY as nat)) as usize),
        ),
        spec_recv(events, cursor).1 == events.len() - (EVENT_CAPACITY as nat),
{
}

} // verus!
