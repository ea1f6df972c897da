//! The columnar ray/hit batch: N rays and N hits stored field-major, all
//! N values of one field before the next field, 4 bytes per element.
//! Field `f` of lane `i` sits at `f * N + i`.
use vstd::prelude::*;

use crate::ray::{Hit, Ray, RayHit};

verus! {

/// Number of ray fields in a lane.
pub const RAY_FIELD_COUNT: usize = 12;

/// Number of hit fields in a lane.
pub const HIT_FIELD_COUNT: usize = 8;

/// Number of fields of one lane, ray and hit together.
pub const LANE_FIELD_COUNT: usize = 20;

pub const ORG_X: usize = 0;
pub const ORG_Y: usize = 1;
pub const ORG_Z: usize = 2;
pub const TNEAR: usize = 3;
pub const DIR_X: usize = 4;
pub const DIR_Y: usize = 5;
pub const DIR_Z: usize = 6;
pub const TIME: usize = 7;
pub const TFAR: usize = 8;
pub const MASK: usize = 9;
pub const ID: usize = 10;
pub const FLAGS: usize = 11;
pub const NG_X: usize = 12;
pub const NG_Y: usize = 13;
pub const NG_Z: usize = 14;
pub const U: usize = 15;
pub const V: usize = 16;
pub const PRIM_ID: usize = 17;
pub const GEOM_ID: usize = 18;
pub const INST_ID: usize = 19;

/// Field `f` of lane `i` in a batch of width `n`.
pub open spec fn field_at(s: Seq<u32>, n: int, f: int, i: int) -> u32 {
    s[f * n + i]
}

/// A batch buffer of width `n` has exactly one block of `n` elements per field.
pub open spec fn is_batch(s: Seq<u32>, n: int) -> bool {
    s.len() == LANE_FIELD_COUNT * n
}

/// The fields that a hit writes back: the ray's `tfar` and every hit field.
/// The other ray fields are inputs only.
pub open spec fn is_output_field(f: int) -> bool {
    f == TFAR || (NG_X <= f && f < LANE_FIELD_COUNT)
}

/// Lane `i` of the batch, decoded.
pub open spec fn spec_lane(s: Seq<u32>, n: int, i: int) -> RayHit {
    RayHit {
        ray: Ray {
            org_x: field_at(s, n, ORG_X as int, i),
            org_y: field_at(s, n, ORG_Y as int, i),
            org_z: field_at(s, n, ORG_Z as int, i),
            tnear: field_at(s, n, TNEAR as int, i),
            dir_x: field_at(s, n, DIR_X as int, i),
            dir_y: field_at(s, n, DIR_Y as int, i),
            dir_z: field_at(s, n, DIR_Z as int, i),
            time: field_at(s, n, TIME as int, i),
            tfar: field_at(s, n, TFAR as int, i),
            mask: field_at(s, n, MASK as int, i),
            id: field_at(s, n, ID as int, i),
            flags: field_at(s, n, FLAGS as int, i),
        },
        hit: Hit {
            ng_x: field_at(s, n, NG_X as int, i),
            ng_y: field_at(s, n, NG_Y as int, i),
            ng_z: field_at(s, n, NG_Z as int, i),
            u: field_at(s, n, U as int, i),
            v: field_at(s, n, V as int, i),
            prim_id: field_at(s, n, PRIM_ID as int, i),
            geom_id: field_at(s, n, GEOM_ID as int, i),
            inst_id: field_at(s, n, INST_ID as int, i),
        },
    }
}

/// What a lane holds after `found` was written back over `before`: the input
/// fields of `before`, the output fields of `found`.
pub open spec fn spec_merge(before: RayHit, found: RayHit) -> RayHit {
    RayHit { ray: Ray { tfar: found.ray.tfar, ..before.ray }, hit: found.hit }
}

/// A shape signals a hit on geometry `geom_id` by setting the record's
/// geometry id to exactly that id; any other value, the sentinel included,
/// means "no hit".
pub open spec fn signals_hit(rh: RayHit, geom_id: u32) -> bool {
    rh.hit.geom_id == geom_id
}

/// The buffer after the record `rh` computed for lane `i` by geometry
/// `geom_id` was written back: the output fields of lane `i` if `rh` signals
/// a hit, nothing otherwise.
pub open spec fn spec_write_back(s: Seq<u32>, n: int, i: int, geom_id: u32, rh: RayHit) -> Seq<u32> {
    if signals_hit(rh, geom_id) {
        s.update(TFAR * n + i, rh.ray.tfar)
            .update(NG_X * n + i, rh.hit.ng_x)
            .update(NG_Y * n + i, rh.hit.ng_y)
            .update(NG_Z * n + i, rh.hit.ng_z)
            .update(U * n + i, rh.hit.u)
            .update(V * n + i, rh.hit.v)
            .update(PRIM_ID * n + i, rh.hit.prim_id)
            .update(GEOM_ID * n + i, rh.hit.geom_id)
            .update(INST_ID * n + i, rh.hit.inst_id)
    } else {
        s
    }
}

/// Linear position of field `field` of lane `i` in a batch of width `n`.
pub fn offset(field: usize, n: usize, i: usize) -> (r: usize)
    requires
        field * n + i <= usize::MAX,
    ensures
        r == field * n + i,
{
    field * n + i
}

/// Every field of every lane lies inside the buffer.
pub proof fn lemma_offset_in_batch(f: int, n: int, i: int)
    requires
        0 <= f < LANE_FIELD_COUNT,
        0 <= i < n,
    ensures
        0 <= f * n + i < LANE_FIELD_COUNT * n,
{
    assert(0 <= f * n) by (nonlinear_arith)
        requires
            0 <= f,
            0 <= n,
    ;
    assert(f * n + n <= LANE_FIELD_COUNT * n) by (nonlinear_arith)
        requires
            f + 1 <= LANE_FIELD_COUNT,
            0 <= n,
    ;
}

/// Distinct (field, lane) pairs sit at distinct positions.
pub proof fn lemma_offset_injective(f: int, g: int, n: int, i: int, j: int)
    requires
        0 <= f,
        0 <= g,
        0 <= i < n,
        0 <= j < n,
        f * n + i == g * n + j,
    ensures
        f == g,
        i == j,
{
    if f < g {
        assert(f * n + n <= g * n) by (nonlinear_arith)
            requires
                f + 1 <= g,
                0 <= n,
        ;
    } else if g < f {
        assert(g * n + n <= f * n) by (nonlinear_arith)
            requires
                g + 1 <= f,
                0 <= n,
        ;
    }
}

/// A position that is not the one of field `g` in lane `i` differs from it.
proof fn lemma_offset_distinct(f: int, g: int, n: int, j: int, i: int)
    requires
        0 <= f,
        0 <= g,
        0 <= i < n,
        0 <= j < n,
        j != i || f != g,
    ensures
        f * n + j != g * n + i,
{
    if f * n + j == g * n + i {
        lemma_offset_injective(f, g, n, j, i);
    }
}

/// Writing back a lane touches that lane alone, and only its output fields.
/// Read back, the lane is the merge of what it held with the hit, or what it
/// held if there was no hit.
pub proof fn lemma_write_back_lane(s: Seq<u32>, n: int, i: int, geom_id: u32, rh: RayHit)
    requires
        is_batch(s, n),
        0 <= i < n,
    ensures
        is_batch(spec_write_back(s, n, i, geom_id, rh), n),
        forall|f: int, j: int|
            #![trigger field_at(spec_write_back(s, n, i, geom_id, rh), n, f, j)]
            0 <= f < LANE_FIELD_COUNT && 0 <= j < n && (j != i || !is_output_field(f)
                || !signals_hit(rh, geom_id)) ==> field_at(spec_write_back(s, n, i, geom_id, rh), n, f, j)
                == field_at(s, n, f, j),
        spec_lane(spec_write_back(s, n, i, geom_id, rh), n, i) == if signals_hit(rh, geom_id) {
            spec_merge(spec_lane(s, n, i), rh)
        } else {
            spec_lane(s, n, i)
        },
{
    let w = spec_write_back(s, n, i, geom_id, rh);
    assert forall|f: int, j: int|
        0 <= f < LANE_FIELD_COUNT && 0 <= j < n && (j != i || !is_output_field(f)
            || !signals_hit(rh, geom_id)) implies #[trigger] field_at(w, n, f, j) == field_at(
        s,
        n,
        f,
        j,
    ) by {
        lemma_offset_in_batch(f, n, j);
        if signals_hit(rh, geom_id) {
            lemma_offset_distinct(f, TFAR as int, n, j, i);
            lemma_offset_distinct(f, NG_X as int, n, j, i);
            lemma_offset_distinct(f, NG_Y as int, n, j, i);
            lemma_offset_distinct(f, NG_Z as int, n, j, i);
            lemma_offset_distinct(f, U as int, n, j, i);
            lemma_offset_distinct(f, V as int, n, j, i);
            lemma_offset_distinct(f, PRIM_ID as int, n, j, i);
            lemma_offset_distinct(f, GEOM_ID as int, n, j, i);
            lemma_offset_distinct(f, INST_ID as int, n, j, i);
        }
    }
}

/// A record that does not signal a hit on `geom_id` leaves the batch as it
/// was, whatever else the shape changed in it: in particular a lane that
/// already holds a hit of another geometry keeps that hit and its `tfar`.
pub proof fn lemma_no_hit_keeps_lane(s: Seq<u32>, n: int, i: int, geom_id: u32, rh: RayHit)
    requires
        is_batch(s, n),
        0 <= i < n,
        !signals_hit(rh, geom_id),
    ensures
        spec_write_back(s, n, i, geom_id, rh) == s,
        spec_lane(spec_write_back(s, n, i, geom_id, rh), n, i) == spec_lane(s, n, i),
{
}

/// Writing back the same record twice leaves the buffer as writing it once.
pub proof fn lemma_write_back_idempotent(s: Seq<u32>, n: int, i: int, geom_id: u32, rh: RayHit)
    requires
        is_batch(s, n),
        0 <= i < n,
    ensures
        spec_write_back(spec_write_back(s, n, i, geom_id, rh), n, i, geom_id, rh) == spec_write_back(s, n, i, geom_id, rh),
{
    let w = spec_write_back(s, n, i, geom_id, rh);
    let ww = spec_write_back(w, n, i, geom_id, rh);
    if signals_hit(rh, geom_id) {
        assert(ww =~= w);
    }
}

/// Reads lane `i` of a batch of width `n`.
pub fn decode_lane(buf: &[u32], n: usize, i: usize) -> (r: RayHit)
    requires
        is_batch(buf@, n as int),
        i < n,
    ensures
        r == spec_lane(buf@, n as int, i as int),
{
    RayHit {
        ray: Ray {
            org_x: buf[offset(ORG_X, n, i)],
            org_y: buf[offset(ORG_Y, n, i)],
            org_z: buf[offset(ORG_Z, n, i)],
            tnear: buf[offset(TNEAR, n, i)],
            dir_x: buf[offset(DIR_X, n, i)],
            dir_y: buf[offset(DIR_Y, n, i)],
            dir_z: buf[offset(DIR_Z, n, i)],
            time: buf[offset(TIME, n, i)],
            tfar: buf[offset(TFAR, n, i)],
            mask: buf[offset(MASK, n, i)],
            id: buf[offset(ID, n, i)],
            flags: buf[offset(FLAGS, n, i)],
        },
        hit: Hit {
            ng_x: buf[offset(NG_X, n, i)],
            ng_y: buf[offset(NG_Y, n, i)],
            ng_z: buf[offset(NG_Z, n, i)],
            u: buf[offset(U, n, i)],
            v: buf[offset(V, n, i)],
            prim_id: buf[offset(PRIM_ID, n, i)],
            geom_id: buf[offset(GEOM_ID, n, i)],
            inst_id: buf[offset(INST_ID, n, i)],
        },
    }
}

/// Writes the record computed for lane `i` by geometry `geom_id` back into
/// the batch: the ray's `tfar` and all hit fields if it signals a hit on
/// `geom_id`, nothing if it does not.
pub fn write_back_lane(buf: &mut [u32], n: usize, i: usize, geom_id: u32, rh: &RayHit)
    requires
        is_batch(old(buf)@, n as int),
        i < n,
    ensures
        final(buf)@ == spec_write_back(old(buf)@, n as int, i as int, geom_id, *rh),
{
    if rh.hit.geom_id == geom_id {
        proof {
            vstd::slice::axiom_spec_len(&*buf);
        }
        buf[offset(TFAR, n, i)] = rh.ray.tfar;
        buf[offset(NG_X, n, i)] = rh.hit.ng_x;
        buf[offset(NG_Y, n, i)] = rh.hit.ng_y;
        buf[offset(NG_Z, n, i)] = rh.hit.ng_z;
        buf[offset(U, n, i)] = rh.hit.u;
        buf[offset(V, n, i)] = rh.hit.v;
        buf[offset(PRIM_ID, n, i)] = rh.hit.prim_id;
        buf[offset(GEOM_ID, n, i)] = rh.hit.geom_id;
        buf[offset(INST_ID, n, i)] = rh.hit.inst_id;
    }
}

} // verus!
