//! The overlay for the physics engine's ray casts and shape casts.
//!
//! The engine keeps the hits of a cast in a list of its own. The two kinds of
//! cast are drawn alike, from the number of hits in that list.

use vstd::prelude::*;
use bevy_xpbd_3d::plugins::spatial_query::RayHits;
use bevy_xpbd_3d::plugins::spatial_query::ShapeHits;
use crate::overlay::{plan_probe, probe_plan, ProbeDraw};

verus! {

/// Trusted declaration of the engine's list of ray hits, taken as opaque.
#[verifier::external_type_specification]
#[verifier::external_body]
pub struct ExRayHits(RayHits);

/// Trusted declaration of the engine's list of shape hits, taken as opaque.
#[verifier::external_type_specification]
#[verifier::external_body]
pub struct ExShapeHits(ShapeHits);

/// The number of hits that a list of ray hits holds. It is left without a
/// definition: all that is taken of it is what `ray_hits_len` states.
pub uninterp spec fn ray_hit_count(hits: RayHits) -> nat;

/// The number of hits that a list of shape hits holds. It is left without a
/// definition: all that is taken of it is what `shape_hits_len` states.
pub uninterp spec fn shape_hit_count(hits: ShapeHits) -> nat;

/// Trusted wrapper of `RayHits::len`, which returns the number of hits.
/// Nothing here is proved; the body is the call.
#[verifier::external_body]
fn ray_hits_len(hits: &RayHits) -> (len: usize)
    ensures
        len == ray_hit_count(*hits),
{
    hits.len()
}

/// Trusted wrapper of `ShapeHits::len`, which returns the number of hits.
/// Nothing here is proved; the body is the call.
#[verifier::external_body]
fn shape_hits_len(hits: &ShapeHits) -> (len: usize)
    ensures
        len == shape_hit_count(*hits),
{
    hits.len()
}

/// Lists what is drawn for a ray cast with the given hits. `Impact { hit }`
/// refers to the hit at place `hit` of the list.
pub fn plan_ray_cast(hits: &RayHits) -> (plan: Vec<ProbeDraw>)
    ensures
        plan@ == probe_plan(ray_hit_count(*hits)),
{
    plan_probe(ray_hits_len(hits))
}

/// Lists what is drawn for a shape cast with the given hits. `Impact { hit }`
/// refers to the hit at place `hit` of the list.
pub fn plan_shape_cast(hits: &ShapeHits) -> (plan: Vec<ProbeDraw>)
    ensures
        plan@ == probe_plan(shape_hit_count(*hits)),
{
    plan_probe(shape_hits_len(hits))
}

} // verus!
