//! Index bookkeeping of a model built from several meshes: every mesh's local
//! vertex indices are shifted past the vertices of the meshes before it, so
//! that all meshes can share one vertex buffer and one index buffer.
use vstd::prelude::*;
use crate::custom_pipeline::util::{Index, index_values};

verus! {

/// The geometry facts about one loaded mesh that index merging reads: how many
/// vertices it adds to the shared vertex buffer, and its mesh-local triangle
/// indices.
pub struct MeshSource {
    pub vertex_count: u32,
    pub indices: Vec<u32>,
}

/// One mesh of a model, its indices already pointing into the model's shared
/// vertex buffer.
pub struct Mesh {
    pub indices: Vec<Index>,
}

/// Number of vertices that the meshes `srcs` put into the shared buffer.
pub open spec fn total_vertices(srcs: Seq<MeshSource>) -> int
    decreases srcs.len(),
{
    if srcs.len() == 0 {
        0
    } else {
        total_vertices(srcs.drop_last()) + srcs.last().vertex_count
    }
}

/// Where mesh `k` starts in the shared vertex buffer.
pub open spec fn vertex_offset(srcs: Seq<MeshSource>, k: int) -> int {
    total_vertices(srcs.take(k))
}

/// The indices `indices` moved up by `offset`.
pub open spec fn shifted(indices: Seq<u32>, offset: int) -> Seq<u32> {
    indices.map_values(|i: u32| (i + offset) as u32)
}

/// The shared index buffer: each mesh's indices, shifted by the mesh's vertex
/// offset, one mesh after the other.
pub open spec fn merged_indices(srcs: Seq<MeshSource>) -> Seq<u32>
    decreases srcs.len(),
{
    if srcs.len() == 0 {
        Seq::empty()
    } else {
        merged_indices(srcs.drop_last()) + shifted(
            srcs.last().indices@,
            total_vertices(srcs.drop_last()),
        )
    }
}

/// The meshes fit a `u32`-indexed vertex buffer: the vertex total is a `u32`,
/// and no shifted index leaves `u32`.
pub open spec fn fits_u32_indexing(srcs: Seq<MeshSource>) -> bool {
    &&& total_vertices(srcs) <= u32::MAX
    &&& forall|k: int, j: int|
        0 <= k < srcs.len() && 0 <= j < srcs[k].indices@.len() ==> srcs[k].indices@[j]
            + vertex_offset(srcs, k) <= u32::MAX
}

/// Every index of every mesh names one of that mesh's own vertices.
pub open spec fn indices_in_range(srcs: Seq<MeshSource>) -> bool {
    forall|k: int, j: int|
        0 <= k < srcs.len() && 0 <= j < srcs[k].indices@.len() ==> srcs[k].indices@[j]
            < srcs[k].vertex_count
}

/// The index buffer made of the meshes' index lists, one after the other.
pub open spec fn mesh_index_concat(meshes: Seq<Mesh>) -> Seq<Index>
    decreases meshes.len(),
{
    if meshes.len() == 0 {
        Seq::empty()
    } else {
        mesh_index_concat(meshes.drop_last()) + meshes.last().indices@
    }
}

/// The vertex total of a prefix never exceeds the total.
pub proof fn lemma_total_vertices_prefix(srcs: Seq<MeshSource>, k: int)
    requires
        0 <= k <= srcs.len(),
    ensures
        0 <= total_vertices(srcs.take(k)) <= total_vertices(srcs),
    decreases srcs.len() - k,
{
    if k < srcs.len() {
        lemma_total_vertices_prefix(srcs, k + 1);
        lemma_total_vertices_nonneg(srcs.take(k));
        assert(srcs.take(k + 1).drop_last() =~= srcs.take(k));
        assert(total_vertices(srcs.take(k + 1)) == total_vertices(srcs.take(k)) + srcs[k].vertex_count);
    } else {
        assert(srcs.take(k) =~= srcs);
        lemma_total_vertices_nonneg(srcs);
    }
}

proof fn lemma_total_vertices_nonneg(srcs: Seq<MeshSource>)
    ensures
        total_vertices(srcs) >= 0,
    decreases srcs.len(),
{
    if srcs.len() > 0 {
        lemma_total_vertices_nonneg(srcs.drop_last());
    }
}

/// Shifts the indices of one mesh by `offset`.
pub fn offset_indices(indices: &Vec<u32>, offset: u32) -> (shifted_out: Vec<u32>)
    requires
        forall|j: int| 0 <= j < indices@.len() ==> indices@[j] + offset <= u32::MAX,
    ensures
        shifted_out@ == shifted(indices@, offset as int),
{
    let mut out: Vec<u32> = Vec::new();
    let n = indices.len();
    for j in 0..n
        invariant
            n == indices@.len(),
            forall|t: int| 0 <= t < indices@.len() ==> indices@[t] + offset <= u32::MAX,
            out@ =~= shifted(indices@.take(j as int), offset as int),
    {
        out.push(indices[j] + offset);
        assert(indices@.take(j + 1) =~= indices@.take(j as int).push(indices@[j as int]));
    }
    assert(indices@.take(n as int) =~= indices@);
    out
}

/// Builds the shared index buffer of a model from its meshes, and each mesh's
/// own shifted index list (the index part of loading a model).
pub fn merge_meshes(srcs: &Vec<MeshSource>) -> (result: (Vec<Mesh>, Vec<Index>))
    requires
        fits_u32_indexing(srcs@),
    ensures
        result.0@.len() == srcs@.len(),
        forall|k: int|
            0 <= k < srcs@.len() ==> index_values(#[trigger] result.0@[k].indices@) == shifted(
                srcs@[k].indices@,
                vertex_offset(srcs@, k),
            ),
        index_values(result.1@) == merged_indices(srcs@),
        result.1@ == mesh_index_concat(result.0@),
{
    let mut meshes: Vec<Mesh> = Vec::new();
    let mut processed: Vec<Index> = Vec::new();
    let mut current: u32 = 0;
    let n = srcs.len();
    for k in 0..n
        invariant
            n == srcs@.len(),
            fits_u32_indexing(srcs@),
            current == vertex_offset(srcs@, k as int),
            meshes@.len() == k,
            forall|t: int|
                0 <= t < k ==> index_values(#[trigger] meshes@[t].indices@) == shifted(
                    srcs@[t].indices@,
                    vertex_offset(srcs@, t),
                ),
            index_values(processed@) == merged_indices(srcs@.take(k as int)),
            processed@ == mesh_index_concat(meshes@),
    {
        let src = &srcs[k];
        proof {
            lemma_total_vertices_prefix(srcs@, k as int);
            lemma_total_vertices_prefix(srcs@, k + 1);
            assert(srcs@.take(k + 1).drop_last() =~= srcs@.take(k as int));
        }
        let local = offset_indices(&src.indices, current);
        let mut indices: Vec<Index> = Vec::new();
        let m = local.len();
        let ghost before = processed@;
        for j in 0..m
            invariant
                m == local@.len(),
                index_values(indices@) =~= local@.take(j as int),
                processed@ == before + indices@,
        {
            indices.push(Index(local[j]));
            processed.push(Index(local[j]));
            assert(local@.take(j + 1) =~= local@.take(j as int).push(local@[j as int]));
        }
        assert(local@.take(m as int) =~= local@);
        let ghost old_meshes = meshes@;
        meshes.push(Mesh { indices });
        proof {
            assert(meshes@.drop_last() =~= old_meshes);
            assert(srcs@.take(k + 1).last() == srcs@[k as int]);
        }
        current = current + src.vertex_count;
    }
    assert(srcs@.take(n as int) =~= srcs@);
    (meshes, processed)
}

/// Merging keeps indices valid: when every mesh-local index names a vertex of
/// its own mesh, every index of the merged buffer names a vertex of the
/// merged vertex buffer.
pub proof fn lemma_merged_indices_in_range(srcs: Seq<MeshSource>)
    requires
        indices_in_range(srcs),
        fits_u32_indexing(srcs),
    ensures
        forall|p: int|
            0 <= p < merged_indices(srcs).len() ==> #[trigger] merged_indices(srcs)[p]
                < total_vertices(srcs),
    decreases srcs.len(),
{
    if srcs.len() > 0 {
        let init = srcs.drop_last();
        let k = srcs.len() - 1;
        assert(srcs.take(k) =~= init);
        lemma_total_vertices_prefix(srcs, k);
        assert forall|k2: int, j: int|
            0 <= k2 < init.len() && 0 <= j < init[k2].indices@.len() implies init[k2].indices@[j]
            + vertex_offset(init, k2) <= u32::MAX by {
            assert(init.take(k2) =~= srcs.take(k2));
            assert(init[k2] == srcs[k2]);
        }
        lemma_total_vertices_nonneg(init);
        lemma_merged_indices_in_range(init);
        assert forall|p: int|
            0 <= p < merged_indices(srcs).len() implies #[trigger] merged_indices(srcs)[p]
            < total_vertices(srcs) by {
            let left = merged_indices(init);
            if p >= left.len() {
                let j = p - left.len();
                assert(srcs.last() == srcs[k]);
                assert(srcs[k].indices@[j] + vertex_offset(srcs, k) <= u32::MAX);
                assert(srcs[k].indices@[j] < srcs[k].vertex_count);
            } else {
                assert(merged_indices(srcs)[p] == left[p]);
            }
        }
    }
}

} // verus!
