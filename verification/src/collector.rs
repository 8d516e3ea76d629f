//! The aggregation sink: entries from concurrently finishing runners arrive
//! over a channel and are folded, in arrival order, into one aggregate, until
//! an idle window elapses with nothing arriving.

use vstd::prelude::*;
use crate::outcome::ExperimentEntry;

verus! {

/// What the consuming end of the result channel observes next: one runner's
/// completed entry, or the idle window elapsing with nothing arriving.
#[derive(Clone, Copy, PartialEq, Eq, Structural, Debug)]
pub enum CollectorEvent {
    Delivered(ExperimentEntry),
    IdleTimeout,
}

/// The full record of one run: its configuration and every entry collected,
/// in arrival order.
#[derive(Debug)]
pub struct Experiment {
    pub duration: u64,
    pub rps: u64,
    pub data: Vec<ExperimentEntry>,
}

/// The entry an event carries (an idle timeout carries none; the default
/// below is never read, since collection stops at the first timeout).
pub open spec fn spec_entry_of(ev: CollectorEvent) -> ExperimentEntry {
    match ev {
        CollectorEvent::Delivered(e) => e,
        CollectorEvent::IdleTimeout => ExperimentEntry { success: false, time_us: 0 },
    }
}

/// Where collection stops in an observed event sequence: the index of the
/// first idle timeout, or the sequence's length if none occurs.
pub open spec fn spec_stop(evs: Seq<CollectorEvent>) -> int
    decreases evs.len(),
{
    if evs.len() == 0 {
        0
    } else if evs[0] is IdleTimeout {
        0
    } else {
        1 + spec_stop(evs.drop_first())
    }
}

/// The entries a collection run accumulates: exactly those delivered before
/// the first idle timeout, in arrival order.
pub open spec fn spec_collected(evs: Seq<CollectorEvent>) -> Seq<ExperimentEntry> {
    Seq::new(spec_stop(evs) as nat, |i: int| spec_entry_of(evs[i]))
}

/// How many events a collection run consumes: everything up to and including
/// the first idle timeout, or all of them if none occurs.
pub open spec fn spec_consumed(evs: Seq<CollectorEvent>) -> int {
    if spec_stop(evs) < evs.len() {
        spec_stop(evs) + 1
    } else {
        evs.len() as int
    }
}

/// How many completions an observed event sequence delivers (idle timeouts
/// deliver none).
pub open spec fn spec_delivered_count(evs: Seq<CollectorEvent>) -> int
    decreases evs.len(),
{
    if evs.len() == 0 {
        0
    } else {
        (if evs[0] is Delivered {
            1int
        } else {
            0int
        }) + spec_delivered_count(evs.drop_first())
    }
}

pub proof fn lemma_stop_bounds(evs: Seq<CollectorEvent>)
    ensures
        0 <= spec_stop(evs) <= spec_delivered_count(evs) <= evs.len(),
    decreases evs.len(),
{
    if evs.len() > 0 {
        lemma_stop_bounds(evs.drop_first());
    }
}

/// The stop index is pinned by its neighbourhood: if every event before `i`
/// is a delivery and `i` is the end or a timeout, collection stops at `i`.
proof fn lemma_stop_characterize(evs: Seq<CollectorEvent>, i: int)
    requires
        0 <= i <= evs.len(),
        forall|j: int| 0 <= j < i ==> evs[j] is Delivered,
        i == evs.len() || evs[i] is IdleTimeout,
    ensures
        spec_stop(evs) == i,
    decreases i,
{
    if i > 0 {
        assert(evs[0] is Delivered);
        lemma_stop_characterize(evs.drop_first(), i - 1);
    }
}

/// However the completions race, the aggregate holds at most one entry per
/// delivered completion, and no more entries than events were observed: a
/// straggler delivered before the gap is counted once, and nothing is
/// counted twice. With dispatching bounding the deliveries, this bounds the
/// aggregate's size by the dispatch count.
pub proof fn lemma_collected_bounded(evs: Seq<CollectorEvent>)
    ensures
        spec_collected(evs).len() <= spec_delivered_count(evs),
        spec_delivered_count(evs) <= evs.len(),
{
    lemma_stop_bounds(evs);
}

impl Experiment {
    /// The aggregate starts empty, closed over its configuration.
    pub fn new(duration: u64, rps: u64) -> (e: Experiment)
        ensures
            e.duration == duration,
            e.rps == rps,
            e.data@ == Seq::<ExperimentEntry>::empty(),
    {
        Experiment { duration, rps, data: Vec::new() }
    }

    /// Append one arrived entry; arrival order is kept, and the
    /// configuration is untouched.
    pub fn record(&mut self, entry: ExperimentEntry)
        ensures
            final(self).duration == old(self).duration,
            final(self).rps == old(self).rps,
            final(self).data@ == old(self).data@.push(entry),
    {
        self.data.push(entry);
    }

    /// One step of the collection loop: fold one observed event into the
    /// aggregate, and report whether collection is over. A delivery is
    /// appended and collection goes on; an idle timeout changes nothing and
    /// ends it.
    pub fn step(&mut self, event: CollectorEvent) -> (done: bool)
        ensures
            final(self).duration == old(self).duration,
            final(self).rps == old(self).rps,
            event is Delivered ==> final(self).data@ == old(self).data@.push(spec_entry_of(event))
                && !done,
            event is IdleTimeout ==> final(self).data@ == old(self).data@ && done,
    {
        match event {
            CollectorEvent::Delivered(e) => {
                self.data.push(e);
                false
            },
            CollectorEvent::IdleTimeout => true,
        }
    }
}

/// Run the whole collection loop over an observed event sequence: fold each
/// delivered entry into a fresh aggregate until the first idle timeout, or
/// until the events run out. Returns the aggregate and how many events were
/// consumed. The aggregate holds exactly the entries delivered before the
/// first idle timeout, in arrival order, and collection stops exactly there.
pub fn collect(duration: u64, rps: u64, events: &Vec<CollectorEvent>) -> (r: (Experiment, usize))
    ensures
        r.0.duration == duration,
        r.0.rps == rps,
        r.0.data@ == spec_collected(events@),
        r.1 == spec_consumed(events@),
{
    let mut exp = Experiment::new(duration, rps);
    let mut i: usize = 0;
    loop
        invariant
            0 <= i <= events@.len(),
            exp.duration == duration,
            exp.rps == rps,
            forall|j: int| 0 <= j < i ==> events@[j] is Delivered,
            exp.data@ == Seq::new(i as nat, |j: int| spec_entry_of(events@[j])),
        decreases events@.len() - i,
    {
        if i == events.len() {
            proof {
                lemma_stop_characterize(events@, i as int);
                assert(exp.data@ =~= spec_collected(events@));
            }
            return (exp, i);
        }
        let ev = events[i];
        let done = exp.step(ev);
        if done {
            proof {
                lemma_stop_characterize(events@, i as int);
                assert(exp.data@ =~= spec_collected(events@));
            }
            return (exp, i + 1);
        }
        proof {
            assert(exp.data@ =~= Seq::new((i + 1) as nat, |j: int| spec_entry_of(events@[j])));
        }
        i = i + 1;
    }
}

} // verus!
