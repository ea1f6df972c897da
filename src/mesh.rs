//! Triangle meshes: copying vertices and indices into the flat buffers that
//! the kernel allocates, and checking indices against the vertex count.
use vstd::prelude::*;

use crate::error::{Error, Stage};

verus! {

/// Bytes per vertex in the vertex buffer: three 4-byte floats.
pub const VERTEX_STRIDE: usize = 12;

/// Bytes per triangle in the index buffer: three 4-byte indices.
pub const INDEX_STRIDE: usize = 12;

/// `buf` holds the triples of `items` one after the other.
pub open spec fn is_flattening<T>(buf: Seq<T>, items: Seq<(T, T, T)>) -> bool {
    &&& buf.len() == 3 * items.len()
    &&& forall|i: int|
        0 <= i < items.len() ==> buf[3 * i] == (#[trigger] items[i]).0 && buf[3 * i + 1]
            == items[i].1 && buf[3 * i + 2] == items[i].2
}

/// Copies `items` into `buf`, three elements per item.
pub fn fill_triples<T: Copy>(buf: &mut [T], items: &[(T, T, T)])
    requires
        old(buf)@.len() == 3 * items@.len(),
    ensures
        is_flattening(final(buf)@, items@),
{
    proof {
        vstd::slice::axiom_spec_len(&*buf);
    }
    let mut i: usize = 0;
    while i < items.len()
        invariant
            buf@.len() <= usize::MAX,
            buf@.len() == 3 * items@.len(),
            i <= items@.len(),
            forall|j: int|
                0 <= j < i ==> buf@[3 * j] == (#[trigger] items@[j]).0 && buf@[3 * j + 1]
                    == items@[j].1 && buf@[3 * j + 2] == items@[j].2,
        decreases items@.len() - i,
    {
        let item = items[i];
        buf[3 * i] = item.0;
        buf[3 * i + 1] = item.1;
        buf[3 * i + 2] = item.2;
        i = i + 1;
    }
}

/// A triangle names three distinct existing vertices.
pub open spec fn spec_triangle_valid(t: (u32, u32, u32), vertex_count: int) -> bool {
    &&& t.0 < vertex_count && t.1 < vertex_count && t.2 < vertex_count
    &&& t.0 != t.1 && t.1 != t.2 && t.0 != t.2
}

/// Every triangle names three distinct existing vertices.
pub open spec fn spec_indices_valid(indices: Seq<(u32, u32, u32)>, vertex_count: int) -> bool {
    forall|i: int| 0 <= i < indices.len() ==> spec_triangle_valid(#[trigger] indices[i], vertex_count)
}

/// Accepts `indices` iff every triangle names three distinct vertices below
/// `vertex_count`.
pub fn validate_indices(indices: &[(u32, u32, u32)], vertex_count: usize) -> (r: Result<(), Error>)
    ensures
        r.is_ok() <==> spec_indices_valid(indices@, vertex_count as int),
        r.is_err() ==> r == Err::<(), Error>(Error { stage: Stage::MeshIndices, code: None }),
{
    let mut i: usize = 0;
    while i < indices.len()
        invariant
            i <= indices@.len(),
            spec_indices_valid(indices@.subrange(0, i as int), vertex_count as int),
        decreases indices@.len() - i,
    {
        let t = indices[i];
        if t.0 as usize >= vertex_count || t.1 as usize >= vertex_count || t.2 as usize
            >= vertex_count || t.0 == t.1 || t.1 == t.2 || t.0 == t.2 {
            assert(!spec_indices_valid(indices@, vertex_count as int)) by {
                assert(indices@[i as int] == t);
            }
            return Err(Error { stage: Stage::MeshIndices, code: None });
        }
        assert forall|j: int| 0 <= j < i + 1 implies #[trigger] indices@.subrange(0, i + 1)[j]
            == indices@[j] by {}
        assert forall|j: int| 0 <= j < i implies #[trigger] indices@.subrange(0, i as int)[j]
            == indices@[j] by {}
        i = i + 1;
    }
    assert(indices@.subrange(0, i as int) =~= indices@);
    Ok(())
}

} // verus!
