//! The immutable world snapshot: one instant of simulated state, built
//! once per tick and never mutated afterwards.

use vstd::prelude::*;
use crate::numtext::{check_number_text, number_text};

verus! {

/// Mathematical model of one dynamic body.
pub ghost struct BodyModel {
    pub index: u32,
    pub gen: u32,
    pub x: Seq<char>,
    pub y: Seq<char>,
    pub z: Seq<char>,
}

/// One dynamic body: the stable identifier handed out by the physics
/// collaborator (slot index and reuse generation) and a position
/// triple, each coordinate held as the decimal text that is spliced
/// into the wire format.
pub struct Body {
    pub index: u32,
    pub gen: u32,
    pub x: String,
    pub y: String,
    pub z: String,
}

impl View for Body {
    type V = BodyModel;

    open spec fn view(&self) -> BodyModel {
        BodyModel { index: self.index, gen: self.gen, x: self.x@, y: self.y@, z: self.z@ }
    }
}

/// A body is well formed when each coordinate is a plain decimal
/// numeral, so that splicing it into the wire format yields a JSON
/// number.
pub open spec fn body_wf(b: BodyModel) -> bool {
    number_text(b.x) && number_text(b.y) && number_text(b.z)
}

/// The models of a sequence of bodies.
pub open spec fn models_of(bs: Seq<Body>) -> Seq<BodyModel> {
    bs.map_values(|b: Body| b@)
}

pub open spec fn bodies_wf(bs: Seq<BodyModel>) -> bool {
    forall|i: int| 0 <= i < bs.len() ==> body_wf(#[trigger] bs[i])
}

impl Body {
    /// Builds a body when every coordinate is a plain decimal numeral;
    /// refuses anything else (NaN or infinity renderings included).
    pub fn checked_new(index: u32, gen: u32, x: String, y: String, z: String) -> (r: Option<Body>)
        ensures
            r is Some <==> (number_text(x@) && number_text(y@) && number_text(z@)),
            r matches Some(b) ==> b@ == (BodyModel { index, gen, x: x@, y: y@, z: z@ }),
    {
        if check_number_text(x.as_str()) && check_number_text(y.as_str()) && check_number_text(
            z.as_str(),
        ) {
            Some(Body { index, gen, x, y, z })
        } else {
            None
        }
    }
}

/// Mathematical model of one snapshot.
pub ghost struct SnapshotModel {
    pub step: u64,
    pub ticks_per_sec: u64,
    pub bodies: Seq<BodyModel>,
}

impl SnapshotModel {
    /// Elapsed simulated time, exactly: step * dt, expressed in whole
    /// microseconds (dt is 1 / ticks_per_sec seconds).
    pub open spec fn sim_time_micros(self) -> int {
        (self.step as int) * 1_000_000 / (self.ticks_per_sec as int)
    }
}

/// One instant of world state. A snapshot is built whole and never
/// mutated: a new tick produces a brand-new snapshot.
pub struct Snapshot {
    /// Number of ticks taken so far; increases by exactly one per tick.
    pub step: u64,
    /// The fixed tick rate: dt == 1 / ticks_per_sec seconds.
    pub ticks_per_sec: u64,
    /// The dynamic bodies known to the physics collaborator at this tick.
    pub bodies: Vec<Body>,
}

impl View for Snapshot {
    type V = SnapshotModel;

    open spec fn view(&self) -> SnapshotModel {
        SnapshotModel {
            step: self.step,
            ticks_per_sec: self.ticks_per_sec,
            bodies: models_of(self.bodies@),
        }
    }
}

pub open spec fn snapshot_wf(s: SnapshotModel) -> bool {
    s.ticks_per_sec >= 1 && bodies_wf(s.bodies)
}

impl Snapshot {
    /// The snapshot published at cold start, before the first tick:
    /// step 0, holding exactly the bodies added so far.
    pub fn initial(ticks_per_sec: u64, bodies: Vec<Body>) -> (s: Snapshot)
        requires
            ticks_per_sec >= 1,
            bodies_wf(models_of(bodies@)),
        ensures
            s@ == (SnapshotModel { step: 0u64, ticks_per_sec, bodies: models_of(bodies@) }),
            snapshot_wf(s@),
    {
        Snapshot { step: 0, ticks_per_sec, bodies }
    }

    /// The snapshot for the tick after `prev`: the step advances by
    /// exactly one, the tick rate is unchanged, and the bodies are the
    /// current enumeration handed in by the caller.
    pub fn next(prev: &Snapshot, bodies: Vec<Body>) -> (s: Snapshot)
        requires
            prev@.step < u64::MAX,
            snapshot_wf(prev@),
            bodies_wf(models_of(bodies@)),
        ensures
            s@ == (SnapshotModel {
                step: (prev@.step + 1) as u64,
                ticks_per_sec: prev@.ticks_per_sec,
                bodies: models_of(bodies@),
            }),
            snapshot_wf(s@),
    {
        Snapshot { step: prev.step + 1, ticks_per_sec: prev.ticks_per_sec, bodies }
    }

    /// Elapsed simulated seconds in whole microseconds, exactly
    /// floor(step * 1000000 / ticks_per_sec).
    pub fn sim_time_micros(&self) -> (t: u128)
        requires
            snapshot_wf(self@),
        ensures
            t == self@.sim_time_micros(),
    {
        (self.step as u128) * 1_000_000u128 / (self.ticks_per_sec as u128)
    }
}

} // verus!
