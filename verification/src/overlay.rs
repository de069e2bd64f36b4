//! What the debug overlay draws for a spatial probe.
//!
//! A probe that hit something gets, for every hit, a line from its origin to
//! the point of impact and a marker at that point. A probe that hit nothing
//! gets one long line along its direction, in another colour, to show where
//! it points.

use vstd::prelude::*;

verus! {

/// The length of the line that stands for a probe without hits.
pub const NO_HIT_REACH: u32 = 1000;

/// The two colours of the overlay.
#[derive(Clone, Copy, Debug, PartialEq, Eq, Structural)]
pub enum Tint {
    /// For what belongs to a hit.
    Hit,
    /// For the line of a probe without hits.
    NoHit,
}

/// One thing to draw for a probe. A hit is named by its place in the probe's
/// list of hits; its point of impact lies at the probe's origin plus its
/// direction times the hit's time of impact.
#[derive(Clone, Copy, Debug, PartialEq, Eq, Structural)]
pub enum ProbeDraw {
    /// A line from the probe's origin to the point of impact of hit `hit`,
    /// and a marker sphere at that point.
    Impact { hit: usize },
    /// A line from the probe's origin along its direction, `length` long, and
    /// no marker.
    Reach { length: u32 },
}

impl ProbeDraw {
    /// The colour a thing is drawn in.
    pub open spec fn tint_of(self) -> Tint {
        match self {
            ProbeDraw::Impact { .. } => Tint::Hit,
            ProbeDraw::Reach { .. } => Tint::NoHit,
        }
    }

    /// Computes [`ProbeDraw::tint_of`].
    pub fn tint(&self) -> (tint: Tint)
        ensures
            tint == self.tint_of(),
    {
        match self {
            ProbeDraw::Impact { .. } => Tint::Hit,
            ProbeDraw::Reach { .. } => Tint::NoHit,
        }
    }

    /// The number of marker spheres a thing is drawn with.
    pub open spec fn markers_of(self) -> nat {
        match self {
            ProbeDraw::Impact { .. } => 1,
            ProbeDraw::Reach { .. } => 0,
        }
    }

    /// Computes [`ProbeDraw::markers_of`].
    pub fn markers(&self) -> (count: usize)
        ensures
            count == self.markers_of(),
    {
        match self {
            ProbeDraw::Impact { .. } => 1,
            ProbeDraw::Reach { .. } => 0,
        }
    }
}

/// What is drawn for a probe with `hits` hits: the impact of each hit, in the
/// order of the hits, or the one reach line where there is no hit.
pub open spec fn probe_plan(hits: nat) -> Seq<ProbeDraw> {
    if hits == 0 {
        seq![ProbeDraw::Reach { length: NO_HIT_REACH }]
    } else {
        Seq::new(hits, |i: int| ProbeDraw::Impact { hit: i as usize })
    }
}

/// The number of marker spheres that some things are drawn with.
pub open spec fn marker_total(draws: Seq<ProbeDraw>) -> nat
    decreases draws.len(),
{
    if draws.len() == 0 {
        0
    } else {
        marker_total(draws.drop_last()) + draws.last().markers_of()
    }
}

proof fn lemma_impacts_have_one_marker_each(draws: Seq<ProbeDraw>)
    requires
        forall|i: int| 0 <= i < draws.len() ==> #[trigger] draws[i] is Impact,
    ensures
        marker_total(draws) == draws.len(),
    decreases draws.len(),
{
    if draws.len() > 0 {
        lemma_impacts_have_one_marker_each(draws.drop_last());
    }
}

/// Every entry of a plan is drawn with exactly one line, so a plan has as
/// many lines as entries: one for a probe without hits, and one per hit
/// otherwise. It has no marker for a probe without hits, and one per hit
/// otherwise.
pub proof fn lemma_probe_plan_counts(hits: nat)
    ensures
        probe_plan(hits).len() == (if hits == 0 {
            1nat
        } else {
            hits
        }),
        marker_total(probe_plan(hits)) == hits,
{
    if hits == 0 {
        let plan = probe_plan(0);
        assert(plan.drop_last().len() == 0);
        assert(marker_total(plan.drop_last()) == 0);
    } else {
        lemma_impacts_have_one_marker_each(probe_plan(hits));
    }
}

/// Lists what is drawn for a probe with `hits` hits.
///
/// Without a hit that is exactly one line of the fixed length, in the colour
/// for no hit. With hits it is exactly one line and marker per hit, each
/// ending at the impact of its own hit.
pub fn plan_probe(hits: usize) -> (plan: Vec<ProbeDraw>)
    ensures
        plan@ == probe_plan(hits as nat),
        hits == 0 ==> plan@ == seq![ProbeDraw::Reach { length: NO_HIT_REACH }],
        hits > 0 ==> plan@.len() == hits,
        hits > 0 ==> forall|i: int|
            0 <= i < hits ==> #[trigger] plan@[i] == (ProbeDraw::Impact { hit: i as usize }),
{
    let mut plan: Vec<ProbeDraw> = Vec::new();
    if hits == 0 {
        plan.push(ProbeDraw::Reach { length: NO_HIT_REACH });
        assert(plan@ =~= probe_plan(0));
        return plan;
    }
    let mut hit: usize = 0;
    while hit < hits
        invariant
            hit <= hits,
            plan@.len() == hit,
            forall|i: int| 0 <= i < hit ==> #[trigger] plan@[i] == (ProbeDraw::Impact { hit: i as usize }),
        decreases hits - hit,
    {
        plan.push(ProbeDraw::Impact { hit });
        hit += 1;
    }
    assert(plan@ =~= probe_plan(hits as nat));
    plan
}

} // verus!
