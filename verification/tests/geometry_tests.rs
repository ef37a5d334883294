use compute_renderer::custom_pipeline::util::Index;
use compute_renderer::gpu::gpu_buffers::{
    merge_index_lists, pack_material_textures, pack_textures, TextureSource, FALLBACK_TEXEL,
    NO_TEXTURE_INDEX,
};
use compute_renderer::gpu::util::{merge_obj_indices, Index as BinnedIndex, TextureInfo};
use compute_renderer::model::{merge_meshes, offset_indices, MeshSource};

fn sources() -> Vec<MeshSource> {
    vec![
        MeshSource { vertex_count: 3, indices: vec![0, 1, 2] },
        MeshSource { vertex_count: 4, indices: vec![0, 1, 2, 2, 3, 0] },
        MeshSource { vertex_count: 0, indices: vec![] },
        MeshSource { vertex_count: 3, indices: vec![2, 1, 0] },
    ]
}

#[test]
fn offset_indices_shifts_every_index() {
    assert_eq!(offset_indices(&vec![0, 5, 9], 10), vec![10, 15, 19]);
    assert_eq!(offset_indices(&vec![], 10), Vec::<u32>::new());
    assert_eq!(offset_indices(&vec![u32::MAX - 1], 1), vec![u32::MAX]);
}

#[test]
fn merge_meshes_shifts_each_mesh_past_earlier_vertices() {
    let (meshes, processed) = merge_meshes(&sources());
    assert_eq!(meshes.len(), 4);
    assert_eq!(meshes[0].indices, vec![Index(0), Index(1), Index(2)]);
    assert_eq!(
        meshes[1].indices,
        vec![Index(3), Index(4), Index(5), Index(5), Index(6), Index(3)]
    );
    assert!(meshes[2].indices.is_empty());
    assert_eq!(meshes[3].indices, vec![Index(9), Index(8), Index(7)]);
    let concat: Vec<Index> = meshes.iter().flat_map(|m| m.indices.iter().copied()).collect();
    assert_eq!(processed, concat);
}

#[test]
fn merged_indices_stay_within_merged_vertices() {
    let srcs = sources();
    let total: u32 = srcs.iter().map(|m| m.vertex_count).sum();
    let (_, processed) = merge_meshes(&srcs);
    assert!(processed.iter().all(|i| i.0 < total));
}

#[test]
fn merge_meshes_of_no_meshes() {
    let (meshes, processed) = merge_meshes(&vec![]);
    assert!(meshes.is_empty());
    assert!(processed.is_empty());
}

#[test]
fn merge_index_lists_and_obj_indices_agree() {
    let flat = merge_index_lists(&sources());
    assert_eq!(flat, vec![0, 1, 2, 3, 4, 5, 5, 6, 3, 9, 8, 7]);
    let obj = merge_obj_indices(&sources());
    let values: Vec<u32> = obj.iter().map(|BinnedIndex(i)| *i).collect();
    assert_eq!(values, flat);
}

#[test]
fn pack_textures_locates_each_texture() {
    let textures = vec![
        Some(TextureSource { width: 2, height: 1, data: vec![7, 8] }),
        None,
        Some(TextureSource { width: 1, height: 1, data: vec![9] }),
    ];
    let (data, infos) = pack_textures(&textures);
    assert_eq!(data, vec![7, 8, 9]);
    assert_eq!(
        infos,
        vec![
            TextureInfo { offset: 0, width: 2, height: 1, _padding: 0 },
            TextureInfo { offset: NO_TEXTURE_INDEX, width: 0, height: 0, _padding: 0 },
            TextureInfo { offset: 2, width: 1, height: 1, _padding: 0 },
        ]
    );
    for (info, tex) in infos.iter().zip(textures.iter()) {
        if let Some(t) = tex {
            let start = info.offset as usize;
            assert_eq!(&data[start..start + t.data.len()], &t.data[..]);
        }
    }
}

#[test]
fn pack_textures_without_texels_uses_one_zero_texel() {
    let (data, infos) = pack_textures(&vec![None, None]);
    assert_eq!(data, vec![0]);
    assert_eq!(infos.len(), 2);
    assert!(infos.iter().all(|i| i.offset == NO_TEXTURE_INDEX && i.width == 0));
    let (data, infos) = pack_textures(&vec![]);
    assert_eq!(data, vec![0]);
    assert!(infos.is_empty());
    let (data, infos) =
        pack_textures(&vec![Some(TextureSource { width: 0, height: 0, data: vec![] })]);
    assert_eq!(data, vec![0]);
    assert_eq!(infos, vec![TextureInfo { offset: 0, width: 0, height: 0, _padding: 0 }]);
}

#[test]
fn pack_material_textures_locates_each_texture() {
    let textures = vec![
        TextureSource { width: 1, height: 2, data: vec![1, 2] },
        TextureSource { width: 3, height: 1, data: vec![3, 4, 5] },
    ];
    let (data, infos) = pack_material_textures(&textures);
    assert_eq!(data, vec![1, 2, 3, 4, 5]);
    assert_eq!(
        infos,
        vec![
            TextureInfo { offset: 0, width: 1, height: 2, _padding: 0 },
            TextureInfo { offset: 2, width: 3, height: 1, _padding: 0 },
        ]
    );
}

#[test]
fn pack_material_textures_falls_back_when_empty() {
    let (data, infos) = pack_material_textures(&vec![]);
    assert_eq!(FALLBACK_TEXEL, 0xFFFF_FFFF);
    assert_eq!(data, vec![0xFFFF_FFFF]);
    assert_eq!(infos, vec![TextureInfo { offset: 0, width: 1, height: 1, _padding: 0 }]);
    let (data, infos) =
        pack_material_textures(&vec![TextureSource { width: 4, height: 4, data: vec![] }]);
    assert_eq!(data, vec![0xFFFF_FFFF]);
    assert_eq!(infos, vec![TextureInfo { offset: 0, width: 4, height: 4, _padding: 0 }]);
}
