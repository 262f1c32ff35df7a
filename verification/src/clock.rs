//! The fixed-timestep driver. A dedicated background task wakes on a
//! periodic timer, lets the physics collaborator advance the world,
//! and publishes the result to the store as one brand-new snapshot.
//!
//! The cadence policy is deliberate: if one tick's work overruns the
//! period, the next wake-up is not compensated — no catch-up backlog
//! accumulates, and under sustained overload the simulation simply
//! runs slower than wall-clock time.

use vstd::prelude::*;
use crate::snapshot::{Body, Snapshot, bodies_wf, models_of};
use crate::store::StateStore;

verus! {

/// The clock's fixed configuration: the tick rate. The tick period is
/// dt == 1 / ticks_per_sec seconds, a simulation-wide constant.
pub struct SimulationClock {
    pub ticks_per_sec: u64,
}

impl SimulationClock {
    pub fn new(ticks_per_sec: u64) -> (c: SimulationClock)
        requires
            ticks_per_sec >= 1,
        ensures
            c.ticks_per_sec == ticks_per_sec,
    {
        SimulationClock { ticks_per_sec }
    }

    /// The tick period in whole milliseconds, as handed to the periodic
    /// timer that wakes the clock's task.
    pub fn period_millis(&self) -> (ms: u64)
        requires
            self.ticks_per_sec >= 1,
        ensures
            ms == 1000int / (self.ticks_per_sec as int),
    {
        1000u64 / self.ticks_per_sec
    }

    /// One tick: builds the snapshot after the store's current one —
    /// step advanced by exactly one, tick rate unchanged, bodies as
    /// enumerated by the caller — and publishes it whole. The viewer
    /// count is untouched.
    pub fn tick(&self, store: &mut StateStore, bodies: Vec<Body>)
        requires
            old(store).wf(),
            old(store)@.current().ticks_per_sec == self.ticks_per_sec,
            old(store)@.current().step < u64::MAX,
            bodies_wf(models_of(bodies@)),
        ensures
            final(store).wf(),
            final(store)@.history == old(store)@.history.push(final(store)@.current()),
            final(store)@.current().step == old(store)@.current().step + 1,
            final(store)@.current().ticks_per_sec == self.ticks_per_sec,
            final(store)@.current().bodies == models_of(bodies@),
            final(store)@.viewers == old(store)@.viewers,
    {
        let next = Snapshot::next(store.latest(), bodies);
        store.publish(next);
    }
}

} // verus!
