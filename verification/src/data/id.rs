//! Surrogate identifiers and the rule by which they are issued.
//!
//! Identifiers of each kind come from one shared counter. An allocation
//! reads the counter and, unless the counter stands at its ceiling, moves it
//! on by one, in a single indivisible step; the caller is handed the value
//! that follows the one read. A counter at its ceiling stays there and
//! issues nothing more, so that no identifier is ever issued twice. The
//! counters themselves live in atomics whose contents Verus cannot see, so
//! this module states the rule twice: as executable functions from the value
//! read to the identifier issued, and as a sequential model of the counters
//! over which the guarantees on whole runs of allocations are proved.
//! Because each allocation is indivisible, any concurrent execution behaves
//! as one of the model's runs.
use vstd::prelude::*;

verus! {

/// Identifier of an attribute.
#[derive(Clone, Copy, Debug, PartialEq, Eq, Structural, PartialOrd, Ord, Hash)]
pub struct AttrId(pub u64);

/// Identifier of an entity.
#[derive(Clone, Copy, Debug, PartialEq, Eq, Structural, PartialOrd, Ord, Hash)]
pub struct EntityId(pub u64);

/// Identifier of a transaction.
#[derive(Clone, Copy, Debug, PartialEq, Eq, Structural, PartialOrd, Ord, Hash)]
pub struct TxId(pub u64);

/// The four shared counters.
#[derive(Clone, Copy, Debug, PartialEq, Eq, Structural)]
pub enum Counter {
    Attr,
    Entity,
    Tx,
    Session,
}

/// The largest value a counter can hold.
pub open spec fn ceiling(counter: Counter) -> int {
    match counter {
        Counter::Session => usize::MAX as int,
        _ => u64::MAX as int,
    }
}

/// What an allocation hands out when it read `prev`: the next value, or
/// nothing when the counter had reached its ceiling.
pub open spec fn issued_after(counter: Counter, prev: int) -> Option<int> {
    if prev < ceiling(counter) {
        Some(prev + 1)
    } else {
        None
    }
}

/// What the counter holds after an allocation that read `prev`: the value
/// issued, or the ceiling where the counter had reached it.
pub open spec fn stored_after(counter: Counter, prev: int) -> int {
    if prev < ceiling(counter) {
        prev + 1
    } else {
        prev
    }
}

/// The value that follows `prev` in a 64-bit counter; `None` at the ceiling.
/// This is the step an allocation applies to the counter it reads.
pub fn next_u64(prev: u64) -> (next: Option<u64>)
    ensures
        next == (if prev < u64::MAX {
            Some((prev + 1) as u64)
        } else {
            None
        }),
{
    if prev < u64::MAX {
        Some(prev + 1)
    } else {
        None
    }
}

/// The value that follows `prev` in the session counter; `None` at the
/// ceiling.
pub fn next_usize(prev: usize) -> (next: Option<usize>)
    ensures
        next == (if prev < usize::MAX {
            Some((prev + 1) as usize)
        } else {
            None
        }),
{
    if prev < usize::MAX {
        Some(prev + 1)
    } else {
        None
    }
}

impl AttrId {
    /// The attribute identifier issued by an allocation that read `prev`.
    pub fn after(prev: u64) -> (r: Option<AttrId>)
        ensures
            match r {
                Some(id) => issued_after(Counter::Attr, prev as int) == Some(id.0 as int),
                None => issued_after(Counter::Attr, prev as int) is None,
            },
    {
        match next_u64(prev) {
            Some(next) => Some(AttrId(next)),
            None => None,
        }
    }
}

impl EntityId {
    /// The entity identifier issued by an allocation that read `prev`.
    pub fn after(prev: u64) -> (r: Option<EntityId>)
        ensures
            match r {
                Some(id) => issued_after(Counter::Entity, prev as int) == Some(id.0 as int),
                None => issued_after(Counter::Entity, prev as int) is None,
            },
    {
        match next_u64(prev) {
            Some(next) => Some(EntityId(next)),
            None => None,
        }
    }
}

impl TxId {
    /// The transaction identifier issued by an allocation that read `prev`.
    pub fn after(prev: u64) -> (r: Option<TxId>)
        ensures
            match r {
                Some(id) => issued_after(Counter::Tx, prev as int) == Some(id.0 as int),
                None => issued_after(Counter::Tx, prev as int) is None,
            },
    {
        match next_u64(prev) {
            Some(next) => Some(TxId(next)),
            None => None,
        }
    }
}

/// The ordinal given to a session when `prev` sessions had been created
/// before it.
pub fn session_ordinal_after(prev: usize) -> (r: Option<usize>)
    ensures
        match r {
            Some(n) => issued_after(Counter::Session, prev as int) == Some(n as int),
            None => issued_after(Counter::Session, prev as int) is None,
        },
{
    next_usize(prev)
}

/// The values of the four counters at one instant.
pub struct CounterState {
    pub attr: int,
    pub ent: int,
    pub tx: int,
    pub sessions: int,
}

impl CounterState {
    /// Every counter lies between zero and its ceiling.
    pub open spec fn valid(self) -> bool {
        &&& 0 <= self.attr <= ceiling(Counter::Attr)
        &&& 0 <= self.ent <= ceiling(Counter::Entity)
        &&& 0 <= self.tx <= ceiling(Counter::Tx)
        &&& 0 <= self.sessions <= ceiling(Counter::Session)
    }

    /// The value of `counter`.
    pub open spec fn get(self, counter: Counter) -> int {
        match counter {
            Counter::Attr => self.attr,
            Counter::Entity => self.ent,
            Counter::Tx => self.tx,
            Counter::Session => self.sessions,
        }
    }

    /// The state with `counter` at `value` and the other counters as they
    /// are.
    pub open spec fn set(self, counter: Counter, value: int) -> CounterState {
        match counter {
            Counter::Attr => CounterState { attr: value, ..self },
            Counter::Entity => CounterState { ent: value, ..self },
            Counter::Tx => CounterState { tx: value, ..self },
            Counter::Session => CounterState { sessions: value, ..self },
        }
    }

    /// One allocation from `counter`.
    pub open spec fn step(self, counter: Counter) -> CounterState {
        self.set(counter, stored_after(counter, self.get(counter)))
    }

    /// The state after the allocations `events`, in that order.
    pub open spec fn run(self, events: Seq<Counter>) -> CounterState
        decreases events.len(),
    {
        if events.len() == 0 {
            self
        } else {
            self.run(events.drop_last()).step(events.last())
        }
    }

    /// What the allocation at position `i` of `events` hands out.
    pub open spec fn issued_at(self, events: Seq<Counter>, i: int) -> Option<int> {
        issued_after(events[i], self.run(events.take(i)).get(events[i]))
    }
}

/// How many of `events` are allocations from `counter`.
pub open spec fn count_of(events: Seq<Counter>, counter: Counter) -> nat
    decreases events.len(),
{
    if events.len() == 0 {
        0
    } else {
        count_of(events.drop_last(), counter) + if events.last() == counter {
            1nat
        } else {
            0nat
        }
    }
}

/// `value`, or the ceiling of `counter` where `value` lies above it.
pub open spec fn capped(counter: Counter, value: int) -> int {
    if value <= ceiling(counter) {
        value
    } else {
        ceiling(counter)
    }
}

/// Counting over a longer stretch of the same run never gives less.
pub proof fn lemma_count_monotone(events: Seq<Counter>, counter: Counter, m: int, n: int)
    requires
        0 <= m <= n <= events.len(),
    ensures
        count_of(events.take(m), counter) <= count_of(events.take(n), counter),
    decreases n - m,
{
    if m < n {
        assert(events.take(n).drop_last() =~= events.take(n - 1));
        lemma_count_monotone(events, counter, m, n - 1);
    }
}

/// A run without allocations from a counter counts none for it.
pub proof fn lemma_count_zero(events: Seq<Counter>, counter: Counter)
    requires
        forall|k: int| 0 <= k < events.len() ==> events[k] != counter,
    ensures
        count_of(events, counter) == 0,
    decreases events.len(),
{
    if events.len() > 0 {
        lemma_count_zero(events.drop_last(), counter);
    }
}

/// In every run a counter stands at its starting value plus the number of
/// allocations made from it, or at its ceiling where that lies lower,
/// whatever was allocated from the other counters in between. It never
/// moves back.
pub proof fn lemma_counter_after_run(
    start: CounterState,
    events: Seq<Counter>,
    counter: Counter,
    n: int,
)
    requires
        start.valid(),
        0 <= n <= events.len(),
    ensures
        start.run(events.take(n)).get(counter) == capped(
            counter,
            start.get(counter) + count_of(events.take(n), counter),
        ),
        start.run(events.take(n)).get(counter) >= start.get(counter),
    decreases n,
{
    if n > 0 {
        assert(events.take(n).drop_last() =~= events.take(n - 1));
        assert(events.take(n).last() == events[n - 1]);
        lemma_counter_after_run(start, events, counter, n - 1);
    } else {
        assert(events.take(0).len() == 0);
    }
}

/// In every run, the allocation at position `i` hands out the starting value
/// plus the number of allocations made from the same counter up to and
/// including itself, and nothing where that lies above the ceiling.
/// Allocations from the other counters do not enter into it.
pub proof fn lemma_issued_value(start: CounterState, events: Seq<Counter>, i: int)
    requires
        start.valid(),
        0 <= i < events.len(),
    ensures
        start.issued_at(events, i) == (if start.get(events[i]) + count_of(
            events.take(i + 1),
            events[i],
        ) <= ceiling(events[i]) {
            Some(start.get(events[i]) + count_of(events.take(i + 1), events[i]))
        } else {
            None
        }),
{
    let counter = events[i];
    lemma_counter_after_run(start, events, counter, i);
    assert(events.take(i + 1).drop_last() =~= events.take(i));
    assert(events.take(i + 1).last() == counter);
}

/// Every value handed out lies above the value the counter started from: a
/// database whose counters were seeded with the highest identifiers on
/// record issues only identifiers that are not on record.
pub proof fn lemma_issued_above_start(start: CounterState, events: Seq<Counter>, i: int)
    requires
        start.valid(),
        0 <= i < events.len(),
    ensures
        start.issued_at(events, i) matches Some(value) ==> value > start.get(events[i]),
{
    lemma_issued_value(start, events, i);
    assert(events.take(i + 1).drop_last() =~= events.take(i));
    assert(events.take(i + 1).last() == events[i]);
}

/// The first allocation from a counter hands out the value that follows the
/// one the counter started from: a database seeded from its store resumes
/// directly above the highest identifier on record.
pub proof fn lemma_first_issued_follows_start(start: CounterState, events: Seq<Counter>, i: int)
    requires
        start.valid(),
        0 <= i < events.len(),
        forall|k: int| 0 <= k < i ==> events[k] != events[i],
    ensures
        start.issued_at(events, i) == issued_after(events[i], start.get(events[i])),
{
    lemma_counter_after_run(start, events, events[i], i);
    lemma_count_zero(events.take(i), events[i]);
}

/// In every run, of two allocations from one counter that were both handed a
/// value, the later was handed the strictly greater one, whatever was
/// allocated from the other counters in between: no value is handed out
/// twice. And once an allocation was refused, every later one from the same
/// counter is refused too.
pub proof fn lemma_issued_strictly_increasing(
    start: CounterState,
    events: Seq<Counter>,
    i: int,
    j: int,
)
    requires
        start.valid(),
        0 <= i < j < events.len(),
        events[i] == events[j],
    ensures
        start.issued_at(events, j) is Some ==> start.issued_at(events, i) is Some
            && start.issued_at(events, i)->0 < start.issued_at(events, j)->0,
        start.issued_at(events, i) is None ==> start.issued_at(events, j) is None,
{
    let counter = events[j];
    lemma_issued_value(start, events, i);
    lemma_issued_value(start, events, j);
    lemma_count_monotone(events, counter, i + 1, j);
    assert(events.take(j + 1).drop_last() =~= events.take(j));
    assert(events.take(j + 1).last() == counter);
}

/// On a database that starts with no sessions, the session created by the
/// allocation at position `i` gets as its ordinal the number of sessions
/// created up to and including itself: the ordinals are 1, 2, 3, ... in the
/// order of creation, each used once, up to the ceiling of the counter.
pub proof fn lemma_session_ordinals_consecutive(
    start: CounterState,
    events: Seq<Counter>,
    i: int,
)
    requires
        start.valid(),
        start.sessions == 0,
        0 <= i < events.len(),
        events[i] == Counter::Session,
    ensures
        start.issued_at(events, i) == (if count_of(events.take(i + 1), Counter::Session)
            <= usize::MAX {
            Some(count_of(events.take(i + 1), Counter::Session) as int)
        } else {
            None
        }),
        1 <= count_of(events.take(i + 1), Counter::Session) <= count_of(events, Counter::Session),
{
    lemma_issued_value(start, events, i);
    assert(events.take(i + 1).drop_last() =~= events.take(i));
    assert(events.take(i + 1).last() == Counter::Session);
    lemma_count_monotone(events, Counter::Session, i + 1, events.len() as int);
    assert(events.take(events.len() as int) =~= events);
}

} // verus!
