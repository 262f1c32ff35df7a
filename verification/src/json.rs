//! The outbound wire format: a snapshot rendered as one JSON text,
//!
//! `{"step":<u64>,"time":<seconds>,"bodies":[{"id":"<index>-<gen>","pos":[x,y,z]},...]}`
//!
//! Time is rendered exactly, in microsecond precision, from the integer
//! pair (step, ticks_per_sec); the coordinate texts are spliced in as
//! they stand in the snapshot.

use vstd::prelude::*;
use vstd::string::*;
use crate::numtext::{dec_fixed, dec_rep, push_u64, push_u64_fixed};
use crate::snapshot::{Body, BodyModel, Snapshot, SnapshotModel, models_of, snapshot_wf};

verus! {

/// The wire text of one body.
pub open spec fn json_of_body(b: BodyModel) -> Seq<char> {
    "{\"id\":\""@ + dec_rep(b.index as nat) + "-"@ + dec_rep(b.gen as nat) + "\",\"pos\":["@ + b.x
        + ","@ + b.y + ","@ + b.z + "]}"@
}

/// The wire text of a body list: the bodies' texts joined by commas.
pub open spec fn json_of_bodies(bs: Seq<BodyModel>) -> Seq<char>
    decreases bs.len(),
{
    if bs.len() == 0 {
        Seq::<char>::empty()
    } else if bs.len() == 1 {
        json_of_body(bs.last())
    } else {
        json_of_bodies(bs.drop_last()) + ","@ + json_of_body(bs.last())
    }
}

/// The wire text of the elapsed simulated time `step / ticks_per_sec`
/// seconds: whole seconds, a dot, then exactly six fractional digits
/// (microsecond precision, rounded towards zero).
pub open spec fn time_text(step: u64, ticks_per_sec: u64) -> Seq<char> {
    dec_rep((step / ticks_per_sec) as nat) + "."@ + dec_fixed(
        ((step % ticks_per_sec) as int * 1_000_000 / (ticks_per_sec as int)) as nat,
        6,
    )
}

/// The wire text of one whole snapshot.
pub open spec fn json_of_snapshot(s: SnapshotModel) -> Seq<char> {
    "{\"step\":"@ + dec_rep(s.step as nat) + ",\"time\":"@ + time_text(s.step, s.ticks_per_sec)
        + ",\"bodies\":["@ + json_of_bodies(s.bodies) + "]}"@
}

fn push_body(out: &mut String, b: &Body)
    ensures
        final(out)@ == old(out)@ + json_of_body(b@),
{
    out.append("{\"id\":\"");
    push_u64(out, b.index as u64);
    out.append("-");
    push_u64(out, b.gen as u64);
    out.append("\",\"pos\":[");
    out.append(b.x.as_str());
    out.append(",");
    out.append(b.y.as_str());
    out.append(",");
    out.append(b.z.as_str());
    out.append("]}");
    proof {
        assert(out@ =~= old(out)@ + json_of_body(b@));
    }
}

fn push_time(out: &mut String, step: u64, ticks_per_sec: u64)
    requires
        ticks_per_sec >= 1,
    ensures
        final(out)@ == old(out)@ + time_text(step, ticks_per_sec),
{
    let secs = step / ticks_per_sec;
    let rem = step % ticks_per_sec;
    let frac_wide: u128 = (rem as u128) * 1_000_000u128 / (ticks_per_sec as u128);
    proof {
        assert((rem as int) * 1_000_000 / (ticks_per_sec as int) < 1_000_000) by (nonlinear_arith)
            requires
                0 <= rem < ticks_per_sec,
        ;
    }
    let frac = frac_wide as u64;
    push_u64(out, secs);
    out.append(".");
    push_u64_fixed(out, frac, 6);
    proof {
        assert(out@ =~= old(out)@ + time_text(step, ticks_per_sec));
    }
}

impl Snapshot {
    /// Renders this snapshot as its wire text. The result is one JSON
    /// object whose fields all come from this snapshot alone.
    pub fn to_json(&self) -> (r: String)
        requires
            snapshot_wf(self@),
        ensures
            r@ == json_of_snapshot(self@),
    {
        let mut out = String::new();
        out.append("{\"step\":");
        push_u64(&mut out, self.step);
        out.append(",\"time\":");
        push_time(&mut out, self.step, self.ticks_per_sec);
        out.append(",\"bodies\":[");
        let ghost pre: Seq<char> = out@;
        let ghost ms: Seq<BodyModel> = models_of(self.bodies@);
        let n = self.bodies.len();
        let mut i: usize = 0;
        while i < n
            invariant
                i <= n == self.bodies@.len(),
                ms == models_of(self.bodies@),
                out@ == pre + json_of_bodies(ms.take(i as int)),
            decreases n - i,
        {
            if i > 0 {
                out.append(",");
            }
            push_body(&mut out, &self.bodies[i]);
            proof {
                assert(ms.take(i + 1).drop_last() =~= ms.take(i as int));
                assert(ms.take(i + 1).last() == self.bodies@[i as int]@);
                assert(out@ =~= pre + json_of_bodies(ms.take(i + 1)));
            }
            i += 1;
        }
        out.append("]}");
        proof {
            assert(ms.take(n as int) =~= ms);
            assert(out@ =~= json_of_snapshot(self@));
        }
        out
    }
}

} // verus!
