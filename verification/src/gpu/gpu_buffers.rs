//! The CPU-side data of the binned pipeline's buffers: the merged index list
//! of all meshes and the packed texel buffer with each texture's location.
use vstd::prelude::*;
use crate::model::{
    MeshSource, fits_u32_indexing, merged_indices, offset_indices, vertex_offset,
    lemma_total_vertices_prefix,
};
use crate::gpu::util::TextureInfo;

verus! {

/// Offset that marks a material without a texture.
pub const NO_TEXTURE_INDEX: u32 = 0xFFFF_FFFF;

/// The texels of one decoded texture.
pub struct TextureSource {
    pub width: u32,
    pub height: u32,
    pub data: Vec<u32>,
}

/// Every mesh's indices shifted past the vertices of the meshes before it, one
/// mesh after the other.
pub fn merge_index_lists(meshes: &Vec<MeshSource>) -> (indices: Vec<u32>)
    requires
        fits_u32_indexing(meshes@),
    ensures
        indices@ == merged_indices(meshes@),
{
    let mut out: Vec<u32> = Vec::new();
    let mut current: u32 = 0;
    let n = meshes.len();
    for k in 0..n
        invariant
            n == meshes@.len(),
            fits_u32_indexing(meshes@),
            current == vertex_offset(meshes@, k as int),
            out@ == merged_indices(meshes@.take(k as int)),
    {
        proof {
            lemma_total_vertices_prefix(meshes@, k as int);
            lemma_total_vertices_prefix(meshes@, k + 1);
            assert(meshes@.take(k + 1).drop_last() =~= meshes@.take(k as int));
            assert(meshes@.take(k + 1).last() == meshes@[k as int]);
        }
        let local = offset_indices(&meshes[k].indices, current);
        let m = local.len();
        let ghost before = out@;
        for j in 0..m
            invariant
                m == local@.len(),
                out@ =~= before + local@.take(j as int),
        {
            out.push(local[j]);
            assert(local@.take(j + 1) =~= local@.take(j as int).push(local@[j as int]));
        }
        assert(local@.take(m as int) =~= local@);
        current = current + meshes[k].vertex_count;
    }
    assert(meshes@.take(n as int) =~= meshes@);
    out
}

/// The texels that the textures `ts` contribute, in order; a material without a
/// texture contributes none.
pub open spec fn packed_texels(ts: Seq<Option<TextureSource>>) -> Seq<u32>
    decreases ts.len(),
{
    if ts.len() == 0 {
        Seq::empty()
    } else {
        packed_texels(ts.drop_last()) + texels_of(ts.last())
    }
}

/// Where texture `k` starts in the packed texel buffer.
pub open spec fn texel_offset(ts: Seq<Option<TextureSource>>, k: int) -> int {
    packed_texels(ts.take(k)).len() as int
}

/// The record that locates material `k`'s texture, or marks it as untextured.
pub open spec fn texture_info_of(ts: Seq<Option<TextureSource>>, k: int) -> TextureInfo {
    match ts[k] {
        Some(t) => TextureInfo {
            offset: texel_offset(ts, k) as u32,
            width: t.width,
            height: t.height,
            _padding: 0,
        },
        None => TextureInfo { offset: NO_TEXTURE_INDEX, width: 0, height: 0, _padding: 0 },
    }
}

proof fn lemma_packed_prefix_len(ts: Seq<Option<TextureSource>>, k: int)
    requires
        0 <= k <= ts.len(),
    ensures
        packed_texels(ts.take(k)).len() <= packed_texels(ts).len(),
        packed_texels(ts) =~= packed_texels(ts.take(k)) + packed_texels(ts.skip(k)),
    decreases ts.len() - k,
{
    if k < ts.len() {
        lemma_packed_prefix_len(ts, k + 1);
        assert(ts.take(k + 1).drop_last() =~= ts.take(k));
        assert(ts.skip(k).drop_last().len() + 1 == ts.skip(k).len());
        lemma_packed_split_first(ts.skip(k));
        assert(ts.skip(k).drop_first() =~= ts.skip(k + 1));
        assert(ts.take(k + 1).last() == ts.skip(k).first());
    } else {
        assert(ts.take(k) =~= ts);
        assert(ts.skip(k).len() == 0);
    }
}

/// The texels that one material contributes.
pub open spec fn texels_of(t: Option<TextureSource>) -> Seq<u32> {
    match t {
        Some(t) => t.data@,
        None => Seq::empty(),
    }
}

proof fn lemma_packed_split_first(ts: Seq<Option<TextureSource>>)
    requires
        ts.len() > 0,
    ensures
        packed_texels(ts) =~= texels_of(ts.first()) + packed_texels(ts.drop_first()),
    decreases ts.len(),
{
    if ts.len() > 1 {
        lemma_packed_split_first(ts.drop_last());
        assert(ts.drop_last().drop_first() =~= ts.drop_first().drop_last());
        assert(ts.drop_last().first() == ts.first());
        assert(ts.drop_first().last() == ts.last());
        assert(packed_texels(ts) == packed_texels(ts.drop_last()) + texels_of(ts.last()));
        assert(packed_texels(ts.drop_first()) == packed_texels(ts.drop_first().drop_last())
            + texels_of(ts.drop_first().last()));
    } else {
        assert(ts.drop_last().len() == 0);
        assert(ts.drop_first().len() == 0);
        assert(ts.last() == ts.first());
        assert(packed_texels(ts) == packed_texels(ts.drop_last()) + texels_of(ts.last()));
    }
}

/// Packs the textures of all materials into one texel buffer and builds the
/// record that locates each material's texture (or marks it untextured). An
/// empty texel buffer is replaced by a single zero texel, since a GPU buffer
/// cannot be empty.
pub fn pack_textures(textures: &Vec<Option<TextureSource>>) -> (packed: (Vec<u32>, Vec<TextureInfo>))
    ensures
        packed.1@.len() == textures@.len(),
        forall|k: int|
            0 <= k < textures@.len() ==> #[trigger] packed.1@[k] == texture_info_of(textures@, k),
        packed_texels(textures@).len() == 0 ==> packed.0@ == seq![0u32],
        packed_texels(textures@).len() > 0 ==> packed.0@ == packed_texels(textures@),
        packed_texels(textures@).len() <= u32::MAX ==> forall|k: int|
            0 <= k < textures@.len() && textures@[k] is Some ==> {
                &&& #[trigger] packed.1@[k].offset + textures@[k]->0.data@.len() <= packed.0@.len()
                &&& packed.0@.subrange(
                    packed.1@[k].offset as int,
                    packed.1@[k].offset + textures@[k]->0.data@.len(),
                ) == textures@[k]->0.data@
            },
        packed_texels(textures@).len() <= u32::MAX ==> forall|k: int, j: int|
            0 <= k < j < textures@.len() && textures@[k] is Some && textures@[j] is Some
                ==> #[trigger] packed.1@[k].offset + textures@[k]->0.data@.len()
                <= #[trigger] packed.1@[j].offset,
{
    let mut data: Vec<u32> = Vec::new();
    let mut infos: Vec<TextureInfo> = Vec::new();
    let n = textures.len();
    for k in 0..n
        invariant
            n == textures@.len(),
            data@ == packed_texels(textures@.take(k as int)),
            infos@.len() == k,
            forall|t: int| 0 <= t < k ==> #[trigger] infos@[t] == texture_info_of(textures@, t),
    {
        proof {
            lemma_packed_prefix_len(textures@, k + 1);
            assert(textures@.take(k + 1).drop_last() =~= textures@.take(k as int));
            assert(textures@.take(k + 1).last() == textures@[k as int]);
        }
        match &textures[k] {
            Some(tex) => {
                let offset = data.len() as u32;
                let m = tex.data.len();
                let ghost before = data@;
                for j in 0..m
                    invariant
                        m == tex.data@.len(),
                        data@ =~= before + tex.data@.take(j as int),
                {
                    data.push(tex.data[j]);
                    assert(tex.data@.take(j + 1) =~= tex.data@.take(j as int).push(tex.data@[j as int]));
                }
                assert(tex.data@.take(m as int) =~= tex.data@);
                infos.push(TextureInfo { offset, width: tex.width, height: tex.height, _padding: 0 });
            },
            None => {
                infos.push(TextureInfo { offset: NO_TEXTURE_INDEX, width: 0, height: 0, _padding: 0 });
            },
        }
    }
    assert(textures@.take(n as int) =~= textures@);
    proof {
        if packed_texels(textures@).len() <= u32::MAX {
            assert forall|k: int|
                0 <= k < textures@.len() && textures@[k] is Some implies {
                &&& #[trigger] infos@[k].offset + textures@[k]->0.data@.len() <= data@.len()
                &&& data@.subrange(
                    infos@[k].offset as int,
                    infos@[k].offset + textures@[k]->0.data@.len(),
                ) == textures@[k]->0.data@
            } by {
                lemma_texture_located(textures@, k);
            }
            assert forall|k: int, j: int|
                0 <= k < j < textures@.len() && textures@[k] is Some && textures@[j] is Some
                    implies #[trigger] infos@[k].offset + textures@[k]->0.data@.len()
                <= #[trigger] infos@[j].offset by {
                lemma_texture_located(textures@, k);
                lemma_texture_starts_after(textures@, k, j);
            }
        }
    }
    if data.len() == 0 {
        data = vec![0u32];
    }
    (data, infos)
}

/// The packed buffer holds each texture's texels exactly where its record says.
pub proof fn lemma_texture_located(ts: Seq<Option<TextureSource>>, k: int)
    requires
        0 <= k < ts.len(),
        ts[k] is Some,
        packed_texels(ts).len() <= u32::MAX,
    ensures
        texture_info_of(ts, k).offset + ts[k]->0.data@.len() <= packed_texels(ts).len(),
        packed_texels(ts).subrange(
            texture_info_of(ts, k).offset as int,
            texture_info_of(ts, k).offset + ts[k]->0.data@.len(),
        ) =~= ts[k]->0.data@,
{
    lemma_packed_prefix_len(ts, k);
    lemma_packed_prefix_len(ts, k + 1);
    assert(ts.take(k + 1).drop_last() =~= ts.take(k));
    assert(ts.take(k + 1).last() == ts[k]);
    let pre = packed_texels(ts.take(k));
    let mid = ts[k]->0.data@;
    assert(packed_texels(ts.take(k + 1)) =~= pre + mid);
    assert(packed_texels(ts) =~= pre + mid + packed_texels(ts.skip(k + 1)));
}

/// A textured material's texels end no later than where any later textured
/// material's texels start: the packed textures never overlap.
pub proof fn lemma_texture_starts_after(ts: Seq<Option<TextureSource>>, k: int, j: int)
    requires
        0 <= k < j < ts.len(),
        ts[k] is Some,
        ts[j] is Some,
        packed_texels(ts).len() <= u32::MAX,
    ensures
        texture_info_of(ts, k).offset + ts[k]->0.data@.len() <= texture_info_of(ts, j).offset,
{
    lemma_packed_prefix_len(ts, k + 1);
    lemma_packed_prefix_len(ts, j);
    lemma_packed_prefix_len(ts.take(j), k + 1);
    assert(ts.take(j).take(k + 1) =~= ts.take(k + 1));
    assert(ts.take(k + 1).drop_last() =~= ts.take(k));
    assert(ts.take(k + 1).last() == ts[k]);
    assert(packed_texels(ts.take(k + 1)) =~= packed_texels(ts.take(k)) + ts[k]->0.data@);
}

/// The texels of the textures `ts`, one texture after the other.
pub open spec fn material_texels(ts: Seq<TextureSource>) -> Seq<u32>
    decreases ts.len(),
{
    if ts.len() == 0 {
        Seq::empty()
    } else {
        material_texels(ts.drop_last()) + ts.last().data@
    }
}

/// The record that locates texture `k` among the textures `ts`.
pub open spec fn material_texture_info(ts: Seq<TextureSource>, k: int) -> TextureInfo {
    TextureInfo {
        offset: material_texels(ts.take(k)).len() as u32,
        width: ts[k].width,
        height: ts[k].height,
        _padding: 0,
    }
}

proof fn lemma_material_prefix(ts: Seq<TextureSource>, k: int)
    requires
        0 <= k <= ts.len(),
    ensures
        material_texels(ts.take(k)).len() <= material_texels(ts).len(),
        material_texels(ts).subrange(0, material_texels(ts.take(k)).len() as int)
            =~= material_texels(ts.take(k)),
    decreases ts.len(),
{
    if k == ts.len() {
        assert(ts.take(k) =~= ts);
    } else {
        lemma_material_prefix(ts.drop_last(), k);
        assert(ts.drop_last().take(k) =~= ts.take(k));
        assert(material_texels(ts) == material_texels(ts.drop_last()) + ts.last().data@);
    }
}

/// Each texture's record locates it in the packed texels: the first texture
/// starts at offset 0, each texture's texels stand in the buffer from its
/// record's offset on, and the next texture starts right after them.
pub proof fn lemma_material_texture_located(ts: Seq<TextureSource>, k: int)
    requires
        0 <= k < ts.len(),
        material_texels(ts).len() <= u32::MAX,
    ensures
        k == 0 ==> material_texture_info(ts, k).offset == 0,
        material_texture_info(ts, k).offset + ts[k].data@.len() <= material_texels(ts).len(),
        material_texels(ts).subrange(
            material_texture_info(ts, k).offset as int,
            material_texture_info(ts, k).offset + ts[k].data@.len(),
        ) =~= ts[k].data@,
        k + 1 < ts.len() ==> material_texture_info(ts, k + 1).offset
            == material_texture_info(ts, k).offset + ts[k].data@.len(),
{
    lemma_material_prefix(ts, k);
    lemma_material_prefix(ts, k + 1);
    assert(ts.take(0) =~= Seq::<TextureSource>::empty());
    assert(ts.take(k + 1).drop_last() =~= ts.take(k));
    assert(ts.take(k + 1).last() == ts[k]);
    let pre = material_texels(ts.take(k));
    let mid = ts[k].data@;
    assert(material_texels(ts.take(k + 1)) =~= pre + mid);
    let all = material_texels(ts);
    let a: int = pre.len() as int;
    let b: int = a + mid.len();
    assert(all.subrange(0, b) =~= pre + mid);
    assert(all.subrange(a, b) =~= mid) by {
        assert forall|i: int| 0 <= i < mid.len() implies all.subrange(a, b)[i] == mid[i] by {
            assert(all.subrange(0, b)[a + i] == (pre + mid)[a + i]);
        }
    }
}

/// Texel used when no material has a texture: opaque white.
pub const FALLBACK_TEXEL: u32 = 0xFFFF_FFFF;

/// Packs the texture of every material (each material has one) into one texel
/// buffer and builds the record that locates each. An empty texel buffer is
/// replaced by one white texel, and an empty record list by one record of a
/// 1 by 1 texture at offset 0, since a GPU buffer cannot be empty.
pub fn pack_material_textures(textures: &Vec<TextureSource>) -> (packed: (
    Vec<u32>,
    Vec<TextureInfo>,
))
    ensures
        textures@.len() > 0 ==> packed.1@.len() == textures@.len() && forall|k: int|
            0 <= k < textures@.len() ==> #[trigger] packed.1@[k] == material_texture_info(
                textures@,
                k,
            ),
        textures@.len() == 0 ==> packed.1@ == seq![
            TextureInfo { offset: 0, width: 1, height: 1, _padding: 0 },
        ],
        material_texels(textures@).len() == 0 ==> packed.0@ == seq![FALLBACK_TEXEL],
        material_texels(textures@).len() > 0 ==> packed.0@ == material_texels(textures@),
        textures@.len() > 0 ==> packed.1@[0].offset == 0,
        material_texels(textures@).len() <= u32::MAX ==> forall|k: int|
            0 <= k < textures@.len() ==> {
                &&& #[trigger] packed.1@[k].offset + textures@[k].data@.len() <= packed.0@.len()
                &&& packed.0@.subrange(
                    packed.1@[k].offset as int,
                    packed.1@[k].offset + textures@[k].data@.len(),
                ) == textures@[k].data@
            },
        material_texels(textures@).len() <= u32::MAX ==> forall|k: int|
            0 <= k < textures@.len() - 1 ==> #[trigger] packed.1@[k + 1].offset
                == packed.1@[k].offset + textures@[k].data@.len(),
{
    let mut data: Vec<u32> = Vec::new();
    let mut infos: Vec<TextureInfo> = Vec::new();
    let n = textures.len();
    for k in 0..n
        invariant
            n == textures@.len(),
            data@ == material_texels(textures@.take(k as int)),
            infos@.len() == k,
            forall|t: int|
                0 <= t < k ==> #[trigger] infos@[t] == material_texture_info(textures@, t),
    {
        proof {
            assert(textures@.take(k + 1).drop_last() =~= textures@.take(k as int));
            assert(textures@.take(k + 1).last() == textures@[k as int]);
        }
        let tex = &textures[k];
        let offset = data.len() as u32;
        let m = tex.data.len();
        let ghost before = data@;
        for j in 0..m
            invariant
                m == tex.data@.len(),
                data@ =~= before + tex.data@.take(j as int),
        {
            data.push(tex.data[j]);
            assert(tex.data@.take(j + 1) =~= tex.data@.take(j as int).push(tex.data@[j as int]));
        }
        assert(tex.data@.take(m as int) =~= tex.data@);
        infos.push(TextureInfo { offset, width: tex.width, height: tex.height, _padding: 0 });
    }
    assert(textures@.take(n as int) =~= textures@);
    if data.len() == 0 {
        data = vec![FALLBACK_TEXEL];
    }
    proof {
        if material_texels(textures@).len() <= u32::MAX {
            assert forall|k: int| 0 <= k < textures@.len() implies {
                &&& #[trigger] infos@[k].offset + textures@[k].data@.len() <= data@.len()
                &&& data@.subrange(
                    infos@[k].offset as int,
                    infos@[k].offset + textures@[k].data@.len(),
                ) == textures@[k].data@
                &&& (k + 1 < textures@.len() ==> infos@[k + 1].offset == infos@[k].offset
                    + textures@[k].data@.len())
            } by {
                lemma_material_texture_located(textures@, k);
            }
        }
        assert(textures@.take(0) =~= Seq::<TextureSource>::empty());
    }
    if infos.len() == 0 {
        infos = vec![TextureInfo { offset: 0, width: 1, height: 1, _padding: 0 }];
    }
    (data, infos)
}

} // verus!
