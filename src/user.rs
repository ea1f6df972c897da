//! User-defined geometry: a shape that reports its bounds and intersects
//! rays itself, and the bridge that runs it over a columnar batch.
use vstd::prelude::*;

use crate::batch::{
    decode_lane, field_at, is_batch, is_output_field, lemma_write_back_lane, spec_lane,
    spec_write_back, write_back_lane, LANE_FIELD_COUNT,
};
use crate::ray::{Bounds, QueryContext, RayHit};

verus! {

/// A procedural shape.
///
/// `intersect` receives one ray with its current hit record. To report a hit
/// it updates the ray's `tfar`, the hit's normal, `u`, `v`, `prim_id` and
/// `inst_id`, and sets `hit.geom_id` to the `geom_id` it was given. Any other
/// value of `hit.geom_id`, the one it came with included, means "no hit":
/// then nothing of the record is written back, whatever the shape changed.
pub trait UserGeometryImpl {
    /// The box that contains the shape.
    fn bounds(&self) -> Bounds;

    /// Intersects one ray with the shape.
    fn intersect(&self, geom_id: u32, prim_id: u32, ctx: &QueryContext, ray_hit: &mut RayHit);
}

/// Lane `i` holds the same twenty values in both buffers.
pub open spec fn lane_unchanged(before: Seq<u32>, after: Seq<u32>, n: int, i: int) -> bool {
    spec_lane(after, n, i) == spec_lane(before, n, i)
}

/// Runs `shape` on lane `i` of the batch: decodes the lane, lets the shape
/// intersect it, and writes back what it found.
pub fn intersect_lane<T: UserGeometryImpl>(
    shape: &T,
    buf: &mut [u32],
    n: usize,
    i: usize,
    geom_id: u32,
    prim_id: u32,
    ctx: &QueryContext,
)
    requires
        is_batch(old(buf)@, n as int),
        i < n,
    ensures
        exists|rh: RayHit| #[trigger]
            spec_write_back(old(buf)@, n as int, i as int, geom_id, rh) == final(buf)@,
        is_batch(final(buf)@, n as int),
        forall|f: int, j: int|
            #![trigger field_at(final(buf)@, n as int, f, j)]
            0 <= f < LANE_FIELD_COUNT && 0 <= j < n && (j != i || !is_output_field(f))
                ==> field_at(final(buf)@, n as int, f, j) == field_at(old(buf)@, n as int, f, j),
        lane_unchanged(old(buf)@, final(buf)@, n as int, i as int) || spec_lane(
            final(buf)@,
            n as int,
            i as int,
        ).hit.geom_id == geom_id,
{
    let mut ray_hit = decode_lane(buf, n, i);
    shape.intersect(geom_id, prim_id, ctx, &mut ray_hit);
    proof {
        lemma_write_back_lane(buf@, n as int, i as int, geom_id, ray_hit);
    }
    write_back_lane(buf, n, i, geom_id, &ray_hit);
}

/// Runs `shape` on every valid lane of a batch of width `n`.
///
/// A lane is valid iff its entry in `valid` is not zero. Invalid lanes are
/// neither read nor written. A valid lane keeps its input fields; its output
/// fields (`tfar` and the hit) change only when the shape reported a hit,
/// and then the lane's geometry id is `geom_id`.
pub fn intersect_lanes<T: UserGeometryImpl>(
    shape: &T,
    valid: &[u32],
    buf: &mut [u32],
    n: usize,
    geom_id: u32,
    prim_id: u32,
    ctx: &QueryContext,
)
    requires
        valid@.len() == n,
        is_batch(old(buf)@, n as int),
    ensures
        is_batch(final(buf)@, n as int),
        forall|f: int, j: int|
            #![trigger field_at(final(buf)@, n as int, f, j)]
            0 <= f < LANE_FIELD_COUNT && 0 <= j < n && (valid@[j] == 0 || !is_output_field(f))
                ==> field_at(final(buf)@, n as int, f, j) == field_at(old(buf)@, n as int, f, j),
        forall|j: int|
            0 <= j < n && valid@[j] != 0 ==> lane_unchanged(old(buf)@, final(buf)@, n as int, j)
                || (#[trigger] spec_lane(final(buf)@, n as int, j)).hit.geom_id == geom_id,
{
    let ghost before = buf@;
    let mut i: usize = 0;
    while i < n
        invariant
            valid@.len() == n,
            i <= n,
            is_batch(before, n as int),
            is_batch(buf@, n as int),
            forall|f: int, j: int|
                #![trigger field_at(buf@, n as int, f, j)]
                0 <= f < LANE_FIELD_COUNT && 0 <= j < n && (j >= i || valid@[j] == 0
                    || !is_output_field(f)) ==> field_at(buf@, n as int, f, j) == field_at(
                    before,
                    n as int,
                    f,
                    j,
                ),
            forall|j: int|
                0 <= j < i && valid@[j] != 0 ==> lane_unchanged(before, buf@, n as int, j)
                    || (#[trigger] spec_lane(buf@, n as int, j)).hit.geom_id == geom_id,
        decreases n - i,
    {
        if valid[i] != 0 {
            let ghost mid = buf@;
            intersect_lane(shape, buf, n, i, geom_id, prim_id, ctx);
            proof {
                assert forall|j: int|
                    0 <= j < i + 1 && valid@[j] != 0 implies lane_unchanged(
                    before,
                    buf@,
                    n as int,
                    j,
                ) || (#[trigger] spec_lane(buf@, n as int, j)).hit.geom_id == geom_id by {
                    if j < i {
                        assert(spec_lane(buf@, n as int, j) == spec_lane(mid, n as int, j));
                    } else {
                        assert(spec_lane(mid, n as int, j) == spec_lane(before, n as int, j));
                    }
                }
            }
        }
        i = i + 1;
    }
}

} // verus!
