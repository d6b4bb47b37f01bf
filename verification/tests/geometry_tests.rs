use picasso_example::draws::{
    grid_indices, line_index_bytes, mixed_topology_plan, retained_line_draws, MixedTopologyDraw,
};
use picasso_example::bytes::{rgba8, u32s_to_le_bytes};
use picasso_example::geometry::{
    check_prepared_contract, head_transform_refs, helmet_transform_refs_u32, prepared_geometry,
    GeometryProbeError, HelmetMeta, HEAD_INSTANCE_COUNT, HEAD_TRANSFORM_STATE_BYTES,
    HELMET_INDICES_ID, HELMET_TRANSFORM_REFS_ID, HELMET_VERTICES_ID, TRANSFORM_VALUE_BYTES,
};
use picasso_example::resources::{IndexFormat, PrimitiveTopology, ResourceId, SharedResourceId};

// DamagedHelmet as the host build prepares it.
const HELMET_VERTEX_COUNT: u32 = 14556;
const HELMET_INDEX_COUNT: u32 = 46356;

fn helmet_meta() -> HelmetMeta {
    HelmetMeta {
        vertex_count: HELMET_VERTEX_COUNT,
        index_count: HELMET_INDEX_COUNT,
        vertex_bytes: HELMET_VERTEX_COUNT as u64 * 12,
        index_bytes: HELMET_INDEX_COUNT as u64 * 4,
    }
}

#[test]
fn no_std_consumer_uses_resource_relative_ranges() {
    let primitive = prepared_geometry(helmet_meta());
    assert!(primitive.vertex_count > 3);
    assert!(primitive.index_count > 3);
    assert_eq!(primitive.index_format, Some(IndexFormat::Uint32));
    assert_eq!(primitive.vertices.byte_length, HELMET_VERTEX_COUNT as u64 * 12);
    assert_eq!(primitive.indices.unwrap().byte_length, HELMET_INDEX_COUNT as u64 * 4);
    assert_eq!(primitive.vertices.offset, 0);
    assert_eq!(primitive.indices.unwrap().offset, 0);
}

#[test]
fn four_heads_share_geometry_and_reference_retained_gpu_state() {
    let primitive = prepared_geometry(helmet_meta());
    let refs = head_transform_refs(SharedResourceId(21), 7);
    assert_eq!(refs.reference_count, 4);
    assert_eq!(refs.states.state_count, 4);
    assert_eq!(refs.states.generation, 7);
    assert_eq!(primitive.vertices.resource, ResourceId(HELMET_VERTICES_ID));
    assert_eq!(primitive.indices.unwrap().resource, ResourceId(HELMET_INDICES_ID));
    assert_eq!(helmet_transform_refs_u32().len(), 16);
}

#[test]
fn rgb_lines_are_independent_native_line_draws() {
    let draws = mixed_topology_plan(HELMET_INDEX_COUNT, HELMET_VERTEX_COUNT);
    assert_eq!(draws[0].topology, PrimitiveTopology::TriangleList);
    for (slot, expected_rgba) in [[255, 32, 32, 255], [32, 255, 32, 255], [32, 96, 255, 255]]
        .into_iter()
        .enumerate()
    {
        let draw = draws[slot + 1];
        assert_eq!(draw.topology, PrimitiveTopology::LineList);
        assert_eq!(draw.index_count, 2);
        assert_eq!(draw.first_index, HELMET_INDEX_COUNT + slot as u32 * 2);
        assert_eq!(draw.base_vertex, (HELMET_VERTEX_COUNT + slot as u32 * 2) as i32);
        assert_eq!(draw.rgba8_srgb, u32::from_le_bytes(expected_rgba));
    }
    assert_eq!(grid_indices(), [0, 1, 0, 1, 0, 1]);
}

#[test]
fn helmet_draw_spans_all_helmet_indices() {
    let draws = mixed_topology_plan(HELMET_INDEX_COUNT, HELMET_VERTEX_COUNT);
    assert_eq!(
        draws[0],
        MixedTopologyDraw {
            index_count: HELMET_INDEX_COUNT,
            first_index: 0,
            base_vertex: 0,
            rgba8_srgb: u32::from_le_bytes([210, 215, 225, 255]),
            topology: PrimitiveTopology::TriangleList,
        }
    );
}

#[test]
fn mixed_plan_at_the_top_of_the_index_range() {
    let draws = mixed_topology_plan(u32::MAX - 6, u32::MAX - 6);
    assert_eq!(draws[3].first_index, u32::MAX - 2);
    // A vertex count past i32::MAX wraps in the signed base vertex.
    assert_eq!(draws[3].base_vertex, (u32::MAX - 2) as i32);
    assert_eq!(draws[3].base_vertex, -3);
}

#[test]
fn retained_lines_match_mixed_plan_lines() {
    let retained = retained_line_draws();
    let mixed = mixed_topology_plan(100, 40);
    for slot in 0..3 {
        assert_eq!(retained[slot].first_index, slot as u32 * 2);
        assert_eq!(retained[slot].base_vertex, slot as i32 * 2);
        assert_eq!(mixed[slot + 1].first_index, 100 + retained[slot].first_index);
        assert_eq!(mixed[slot + 1].base_vertex, 40 + retained[slot].base_vertex);
        assert_eq!(mixed[slot + 1].rgba8_srgb, retained[slot].rgba8_srgb);
        assert_eq!(retained[slot].topology, PrimitiveTopology::LineList);
        assert_eq!(retained[slot].index_count, 2);
    }
    // Each line reaches its own two vertices.
    let g = grid_indices();
    let mut reached = Vec::new();
    for d in retained {
        for k in 0..d.index_count {
            reached.push(d.base_vertex + g[(d.first_index + k) as usize] as i32);
        }
    }
    assert_eq!(reached, vec![0, 1, 2, 3, 4, 5]);
}

#[test]
fn rgba8_packs_little_endian() {
    assert_eq!(rgba8(15, 20, 38, 255), 0xff26140f);
    assert_eq!(rgba8(255, 32, 32, 255), u32::from_le_bytes([255, 32, 32, 255]));
    assert_eq!(rgba8(0, 0, 0, 0), 0);
}

#[test]
fn le_bytes_of_index_streams() {
    assert_eq!(
        line_index_bytes(),
        vec![0, 0, 0, 0, 1, 0, 0, 0, 0, 0, 0, 0, 1, 0, 0, 0, 0, 0, 0, 0, 1, 0, 0, 0]
    );
    assert_eq!(
        helmet_transform_refs_u32(),
        vec![0, 0, 0, 0, 1, 0, 0, 0, 2, 0, 0, 0, 3, 0, 0, 0]
    );
    assert_eq!(u32s_to_le_bytes(&[0x0403_0201, 0xdead_beef]), vec![1, 2, 3, 4, 0xef, 0xbe, 0xad, 0xde]);
    assert_eq!(u32s_to_le_bytes(&[]), Vec::<u8>::new());
}

#[test]
fn transform_refs_cover_the_state_table() {
    let refs = head_transform_refs(SharedResourceId(5), 0);
    assert_eq!(refs.states.resource, SharedResourceId(5));
    assert_eq!(refs.states.offset, 0);
    assert_eq!(refs.states.byte_length, HEAD_TRANSFORM_STATE_BYTES);
    assert_eq!(HEAD_TRANSFORM_STATE_BYTES, 192);
    assert_eq!(refs.states.state_stride, TRANSFORM_VALUE_BYTES);
    assert_eq!(
        refs.states.byte_length,
        refs.states.state_count as u64 * refs.states.state_stride as u64
    );
    assert_eq!(refs.references.resource, ResourceId(HELMET_TRANSFORM_REFS_ID));
    assert_eq!(refs.references.byte_length, 16);
    assert_eq!(refs.references.revision, 1);
    assert_eq!(refs.reference_count, HEAD_INSTANCE_COUNT);
    let bytes = helmet_transform_refs_u32();
    for k in 0..4 {
        let id = u32::from_le_bytes([bytes[4 * k], bytes[4 * k + 1], bytes[4 * k + 2], bytes[4 * k + 3]]);
        assert_eq!(id, k as u32);
        assert!(id < refs.states.state_count);
    }
}

#[test]
fn contract_accepts_matching_streams() {
    let meta = helmet_meta();
    let primitive = prepared_geometry(meta);
    assert_eq!(
        check_prepared_contract(&primitive, meta.vertex_bytes as usize, meta.index_bytes as usize),
        Ok(())
    );
}

#[test]
fn contract_refuses_mismatches() {
    let meta = helmet_meta();
    let primitive = prepared_geometry(meta);
    let positions = meta.vertex_bytes as usize;
    let indices = meta.index_bytes as usize;
    assert_eq!(
        check_prepared_contract(&primitive, positions + 1, indices),
        Err(GeometryProbeError::Contract)
    );
    assert_eq!(
        check_prepared_contract(&primitive, positions, indices - 4),
        Err(GeometryProbeError::Contract)
    );
    let mut p = primitive;
    p.indices = None;
    assert_eq!(check_prepared_contract(&p, positions, indices), Err(GeometryProbeError::Contract));
    let mut p = primitive;
    p.vertex_stride = 24;
    assert_eq!(check_prepared_contract(&p, positions, indices), Err(GeometryProbeError::Contract));
    let mut p = primitive;
    p.index_format = Some(IndexFormat::Uint16);
    assert_eq!(check_prepared_contract(&p, positions, indices), Err(GeometryProbeError::Contract));
    let mut p = primitive;
    p.index_format = None;
    assert_eq!(check_prepared_contract(&p, positions, indices), Err(GeometryProbeError::Contract));
    let empty = prepared_geometry(HelmetMeta { vertex_count: 0, index_count: 3, vertex_bytes: 0, index_bytes: 12 });
    assert_eq!(check_prepared_contract(&empty, 0, 12), Err(GeometryProbeError::Contract));
    let no_indices = prepared_geometry(HelmetMeta { vertex_count: 3, index_count: 0, vertex_bytes: 36, index_bytes: 0 });
    assert_eq!(check_prepared_contract(&no_indices, 36, 0), Err(GeometryProbeError::Contract));
}
