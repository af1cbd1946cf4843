//! The orchestrator's dispatch schedule. A run issues, per sample, one ray
//! generation dispatch and then, per bounce, one intersection dispatch
//! followed by one shading dispatch, with no interleaving between stages of
//! the same iteration. The schedule is the whole decision: the device
//! executor walks it in order and enqueues one dispatch per entry.
use vstd::assert_seqs_equal;
use vstd::prelude::*;

use crate::pipeline::StageKind;

verus! {

/// The dispatches of the bounce loop of one sample: `bounces` rounds of
/// intersection followed by shading.
pub open spec fn spec_bounce_rounds(bounces: nat) -> Seq<StageKind>
    decreases bounces,
{
    if bounces == 0 {
        Seq::empty()
    } else {
        spec_bounce_rounds((bounces - 1) as nat)
            + seq![StageKind::Intersection, StageKind::Shading]
    }
}

/// The dispatches of one sample: ray generation, then the bounce rounds.
pub open spec fn spec_sample_schedule(bounces: nat) -> Seq<StageKind> {
    seq![StageKind::RayGeneration] + spec_bounce_rounds(bounces)
}

/// The dispatches of a whole run: the per-sample schedule, `samples` times.
pub open spec fn spec_schedule(samples: nat, bounces: nat) -> Seq<StageKind>
    decreases samples,
{
    if samples == 0 {
        Seq::empty()
    } else {
        spec_schedule((samples - 1) as nat, bounces) + spec_sample_schedule(bounces)
    }
}

/// A run issues `samples * (1 + 2 * bounces)` dispatches in all.
pub proof fn lemma_schedule_len(samples: nat, bounces: nat)
    ensures
        spec_schedule(samples, bounces).len() == samples * (1 + 2 * bounces),
    decreases samples,
{
    lemma_bounce_rounds_len(bounces);
    if samples > 0 {
        lemma_schedule_len((samples - 1) as nat, bounces);
        assert(samples * (1 + 2 * bounces)
            == (samples - 1) * (1 + 2 * bounces) + (1 + 2 * bounces))
            by (nonlinear_arith);
    } else {
        assert(samples * (1 + 2 * bounces) == 0) by (nonlinear_arith)
            requires samples == 0;
    }
}

/// The bounce loop of one sample issues `2 * bounces` dispatches.
pub proof fn lemma_bounce_rounds_len(bounces: nat)
    ensures
        spec_bounce_rounds(bounces).len() == 2 * bounces,
    decreases bounces,
{
    if bounces > 0 {
        lemma_bounce_rounds_len((bounces - 1) as nat);
    }
}

/// Shading dispatches in a dispatch sequence: each one accumulates one
/// radiance contribution per pixel.
pub open spec fn shading_dispatches(s: Seq<StageKind>) -> nat
    decreases s.len(),
{
    if s.len() == 0 {
        0
    } else {
        shading_dispatches(s.drop_last())
            + (if s.last() == StageKind::Shading { 1nat } else { 0nat })
    }
}

/// Shading dispatches add up over concatenation.
proof fn lemma_shading_dispatches_add(a: Seq<StageKind>, b: Seq<StageKind>)
    ensures
        shading_dispatches(a + b) == shading_dispatches(a) + shading_dispatches(b),
    decreases b.len(),
{
    if b.len() == 0 {
        assert(a + b =~= a);
    } else {
        lemma_shading_dispatches_add(a, b.drop_last());
        assert((a + b).drop_last() =~= a + b.drop_last());
    }
}

/// The bounce loop of one sample issues exactly `bounces` shading dispatches.
proof fn lemma_bounce_rounds_shading_count(bounces: nat)
    ensures
        shading_dispatches(spec_bounce_rounds(bounces)) == bounces,
    decreases bounces,
{
    if bounces > 0 {
        reveal_with_fuel(shading_dispatches, 3);
        let round = seq![StageKind::Intersection, StageKind::Shading];
        lemma_bounce_rounds_shading_count((bounces - 1) as nat);
        lemma_shading_dispatches_add(spec_bounce_rounds((bounces - 1) as nat), round);
        assert(round.drop_last() =~= seq![StageKind::Intersection]);
        assert(seq![StageKind::Intersection].drop_last() =~= Seq::<StageKind>::empty());
        assert(shading_dispatches(round) == 1);
    }
}

/// A full run issues exactly `samples * bounces` shading dispatches, so the
/// accumulator receives that many contributions per pixel — which is why
/// normalization divides by the sample count alone and leaves per-bounce
/// weighting to the shading kernel itself.
pub proof fn lemma_shading_dispatch_count(samples: nat, bounces: nat)
    ensures
        shading_dispatches(spec_schedule(samples, bounces)) == samples * bounces,
    decreases samples,
{
    if samples == 0 {
        assert(samples * bounces == 0) by (nonlinear_arith)
            requires samples == 0;
    } else {
        reveal_with_fuel(shading_dispatches, 2);
        lemma_shading_dispatch_count((samples - 1) as nat, bounces);
        lemma_shading_dispatches_add(
            spec_schedule((samples - 1) as nat, bounces),
            spec_sample_schedule(bounces),
        );
        lemma_shading_dispatches_add(
            seq![StageKind::RayGeneration],
            spec_bounce_rounds(bounces),
        );
        assert(seq![StageKind::RayGeneration].drop_last() =~= Seq::<StageKind>::empty());
        assert(shading_dispatches(seq![StageKind::RayGeneration]) == 0);
        lemma_bounce_rounds_shading_count(bounces);
        assert(samples * bounces == (samples - 1) * bounces + bounces) by (nonlinear_arith);
    }
}

/// With no bounces, a run is ray generation alone: every scheduled dispatch
/// is the ray generation stage, so in particular shading never runs and the
/// output accumulator is never written.
pub proof fn lemma_no_bounces_only_ray_generation(samples: nat)
    ensures
        forall|i: int|
            0 <= i < spec_schedule(samples, 0).len()
                ==> spec_schedule(samples, 0)[i] == StageKind::RayGeneration,
    decreases samples,
{
    if samples > 0 {
        lemma_no_bounces_only_ray_generation((samples - 1) as nat);
        assert(spec_sample_schedule(0) == seq![StageKind::RayGeneration]);
    }
}

/// The dispatch sequence of a whole run, in issue order.
pub fn build_schedule(samples: u32, bounces: u32) -> (v: Vec<StageKind>)
    ensures
        v@ == spec_schedule(samples as nat, bounces as nat),
{
    let mut v: Vec<StageKind> = Vec::new();
    let mut s: u32 = 0;
    while s < samples
        invariant
            s <= samples,
            v@ == spec_schedule(s as nat, bounces as nat),
        decreases samples - s,
    {
        v.push(StageKind::RayGeneration);
        let mut b: u32 = 0;
        while b < bounces
            invariant
                b <= bounces,
                v@ == spec_schedule(s as nat, bounces as nat)
                    + seq![StageKind::RayGeneration]
                    + spec_bounce_rounds(b as nat),
            decreases bounces - b,
        {
            v.push(StageKind::Intersection);
            v.push(StageKind::Shading);
            b = b + 1;
            proof {
                assert_seqs_equal!(
                    v@ == spec_schedule(s as nat, bounces as nat)
                        + seq![StageKind::RayGeneration]
                        + spec_bounce_rounds(b as nat)
                );
            }
        }
        s = s + 1;
        proof {
            assert_seqs_equal!(v@ == spec_schedule(s as nat, bounces as nat));
        }
    }
    v
}

} // verus!
