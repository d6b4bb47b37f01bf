//! The host-prepared DamagedHelmet geometry and its retained transform table,
//! described purely as resource identities and resource-relative byte ranges.
use vstd::prelude::*;
use crate::bytes::{spec_u32s_le, u32s_to_le_bytes, le_word, lemma_u32s_le_roundtrip};
use crate::resources::{
    ExecutablePrimitive, IndexFormat, PreparedRange, PrimitiveTopology, ResourceId,
    SharedResourceId, TransformRefList, TransformStateRange,
};

verus! {

/// Raw identity of the prepared resource `ResourceId(HELMET_VERTICES_ID)`.
pub const HELMET_VERTICES_ID: u64 = 0x0001_0000_0000_0001;

/// Raw identity of the prepared resource `ResourceId(HELMET_INDICES_ID)`.
pub const HELMET_INDICES_ID: u64 = 0x0001_0000_0000_0002;

/// Raw identity of the prepared resource `ResourceId(HELMET_TRANSFORM_REFS_ID)`.
pub const HELMET_TRANSFORM_REFS_ID: u64 = 0x0001_0000_0000_0003;

/// Number of retained helmet instances (heads).
pub const HEAD_INSTANCE_COUNT: u32 = 4;

/// Size of one retained transform state: translation, pad, rotation quaternion,
/// scale and pad, twelve `f32` in all.
pub const TRANSFORM_VALUE_BYTES: u32 = 48;

/// Bytes of the whole retained state table: one state per head.
pub const HEAD_TRANSFORM_STATE_BYTES: u64 = 192;

/// Bytes of one prepared helmet position (three `f32`).
pub const HELMET_VERTEX_STRIDE: u32 = 12;

/// Counts and byte lengths that the host build measured from the DamagedHelmet
/// asset when it prepared the position and index streams.
#[derive(Clone, Copy, Debug, PartialEq, Eq, Structural)]
pub struct HelmetMeta {
    pub vertex_count: u32,
    pub index_count: u32,
    pub vertex_bytes: u64,
    pub index_bytes: u64,
}

/// The prepared helmet primitive that `meta` describes, as `prepared_geometry` builds it.
pub open spec fn spec_prepared_geometry(meta: HelmetMeta) -> ExecutablePrimitive {
    ExecutablePrimitive {
        topology: PrimitiveTopology::TriangleList,
        vertices: PreparedRange {
            resource: ResourceId(HELMET_VERTICES_ID),
            offset: 0,
            byte_length: meta.vertex_bytes,
            revision: 1,
        },
        indices: Some(
            PreparedRange {
                resource: ResourceId(HELMET_INDICES_ID),
                offset: 0,
                byte_length: meta.index_bytes,
                revision: 1,
            },
        ),
        index_format: Some(IndexFormat::Uint32),
        vertex_stride: HELMET_VERTEX_STRIDE,
        vertex_count: meta.vertex_count,
        index_count: meta.index_count,
    }
}

/// Describe the host-prepared DamagedHelmet geometry without runtime parsing:
/// a `u32`-indexed triangle list whose positions and indices each start at
/// offset 0 of their own prepared resource.
pub fn prepared_geometry(meta: HelmetMeta) -> (primitive: ExecutablePrimitive)
    ensures
        primitive == spec_prepared_geometry(meta),
{
    ExecutablePrimitive {
        topology: PrimitiveTopology::TriangleList,
        vertices: PreparedRange {
            resource: ResourceId(HELMET_VERTICES_ID),
            offset: 0,
            byte_length: meta.vertex_bytes,
            revision: 1,
        },
        indices: Some(
            PreparedRange {
                resource: ResourceId(HELMET_INDICES_ID),
                offset: 0,
                byte_length: meta.index_bytes,
                revision: 1,
            },
        ),
        index_format: Some(IndexFormat::Uint32),
        vertex_stride: HELMET_VERTEX_STRIDE,
        vertex_count: meta.vertex_count,
        index_count: meta.index_count,
    }
}

/// Why the geometry probe could not be opened or could not render.
#[derive(Clone, Copy, Debug, PartialEq, Eq)]
pub enum GeometryProbeError {
    /// The prepared primitive does not match the embedded streams.
    Contract,
    /// A UI4 window operation failed at the named step.
    Ui4(&'static str),
    /// A vGPU operation failed at the named step with the given status.
    Vgpu(&'static str, i32),
}

/// The prepared primitive can be uploaded as-is: it is `u32`-indexed with
/// 12-byte positions, it has vertices and indices, and its ranges cover exactly
/// the embedded position and index streams.
pub open spec fn prepared_contract_holds(
    primitive: ExecutablePrimitive,
    positions_len: nat,
    indices_len: nat,
) -> bool {
    &&& primitive.indices is Some
    &&& primitive.vertex_stride == HELMET_VERTEX_STRIDE
    &&& primitive.vertex_count != 0
    &&& primitive.index_count != 0
    &&& primitive.index_format == Some(IndexFormat::Uint32)
    &&& primitive.vertices.byte_length == positions_len
    &&& primitive.indices->Some_0.byte_length == indices_len
}

/// Check the prepared primitive against the embedded position and index
/// streams before anything is uploaded.
pub fn check_prepared_contract(
    primitive: &ExecutablePrimitive,
    positions_len: usize,
    indices_len: usize,
) -> (result: Result<(), GeometryProbeError>)
    ensures
        result is Ok <==> prepared_contract_holds(*primitive, positions_len as nat, indices_len as nat),
        result is Err ==> result == Err::<(), GeometryProbeError>(GeometryProbeError::Contract),
{
    let indices = match primitive.indices {
        Some(indices) => indices,
        None => return Err(GeometryProbeError::Contract),
    };
    let uint32 = match primitive.index_format {
        Some(IndexFormat::Uint32) => true,
        _ => false,
    };
    if primitive.vertex_stride != HELMET_VERTEX_STRIDE || primitive.vertex_count == 0
        || primitive.index_count == 0 || !uint32 || primitive.vertices.byte_length
        != positions_len as u64 || indices.byte_length != indices_len as u64 {
        return Err(GeometryProbeError::Contract);
    }
    Ok(())
}

/// Mesh-local transform ids, one per head: top-left, top-right, bottom-left,
/// bottom-right. Each names its own state in the retained table.
pub open spec fn spec_head_transform_ids() -> Seq<u32> {
    seq![0u32, 1u32, 2u32, 3u32]
}

/// The prepared bytes of the helmet's transform-reference resource: the four
/// transform ids as little-endian `u32`.
pub fn helmet_transform_refs_u32() -> (bytes: Vec<u8>)
    ensures
        bytes@ == spec_u32s_le(spec_head_transform_ids()),
        bytes@.len() == 16,
{
    let ids: [u32; 4] = [0, 1, 2, 3];
    assert(ids@ =~= spec_head_transform_ids());
    u32s_to_le_bytes(&ids)
}

/// The reference list `head_transform_refs` builds for a state table.
pub open spec fn spec_head_transform_refs(
    state_resource: SharedResourceId,
    generation: u64,
) -> TransformRefList {
    TransformRefList {
        states: TransformStateRange {
            resource: state_resource,
            offset: 0,
            byte_length: HEAD_TRANSFORM_STATE_BYTES,
            state_count: HEAD_INSTANCE_COUNT,
            state_stride: TRANSFORM_VALUE_BYTES,
            generation,
        },
        references: PreparedRange {
            resource: ResourceId(HELMET_TRANSFORM_REFS_ID),
            offset: 0,
            byte_length: 16,
            revision: 1,
        },
        reference_count: HEAD_INSTANCE_COUNT,
    }
}

/// Bind the mesh's four local references to one restored/mapped shared state
/// table of four transform states at the start of `state_resource`.
pub fn head_transform_refs(state_resource: SharedResourceId, generation: u64) -> (refs:
    TransformRefList)
    ensures
        refs == spec_head_transform_refs(state_resource, generation),
{
    TransformRefList {
        states: TransformStateRange {
            resource: state_resource,
            offset: 0,
            byte_length: HEAD_TRANSFORM_STATE_BYTES,
            state_count: HEAD_INSTANCE_COUNT,
            state_stride: TRANSFORM_VALUE_BYTES,
            generation,
        },
        references: PreparedRange {
            resource: ResourceId(HELMET_TRANSFORM_REFS_ID),
            offset: 0,
            byte_length: 16,
            revision: 1,
        },
        reference_count: HEAD_INSTANCE_COUNT,
    }
}

/// Four heads share one geometry and one retained state table: the reference
/// list covers exactly the prepared reference bytes, its state table is exactly
/// `state_count` states of `state_stride` bytes, and the `k`-th reference reads
/// back as transform id `k`, a valid state index, for every head `k`.
pub proof fn lemma_heads_reference_own_states(
    state_resource: SharedResourceId,
    generation: u64,
    k: int,
)
    requires
        0 <= k < HEAD_INSTANCE_COUNT,
    ensures
        ({
            let refs = spec_head_transform_refs(state_resource, generation);
            let bytes = spec_u32s_le(spec_head_transform_ids());
            &&& refs.references.byte_length == bytes.len()
            &&& refs.references.byte_length == 4 * refs.reference_count
            &&& refs.reference_count == refs.states.state_count
            &&& refs.states.byte_length == refs.states.state_count * refs.states.state_stride
            &&& le_word(bytes, 4 * k) == k
            &&& le_word(bytes, 4 * k) < refs.states.state_count
        }),
{
    lemma_u32s_le_roundtrip(spec_head_transform_ids(), k);
}

/// The prepared geometry is uploadable exactly when the host build found
/// vertices and indices and the embedded streams are the lengths the build
/// recorded: the probe refuses nothing else.
pub proof fn lemma_prepared_geometry_contract(meta: HelmetMeta, positions_len: nat, indices_len: nat)
    ensures
        prepared_contract_holds(spec_prepared_geometry(meta), positions_len, indices_len) <==> (
        meta.vertex_count != 0 && meta.index_count != 0 && meta.vertex_bytes == positions_len
            && meta.index_bytes == indices_len),
{
}

/// The prepared primitive carries what the build measured: its vertex count is
/// the build's vertex count and its index count the build's index count; it is
/// a `u32`-indexed triangle list of 12-byte positions whose vertex range is the
/// whole helmet vertex resource and whose index range is the whole helmet index
/// resource, both from byte 0.
pub proof fn lemma_prepared_geometry_carries_build_counts(meta: HelmetMeta)
    ensures
        ({
            let p = spec_prepared_geometry(meta);
            &&& p.vertex_count == meta.vertex_count
            &&& p.index_count == meta.index_count
            &&& p.topology == PrimitiveTopology::TriangleList
            &&& p.vertex_stride == 12
            &&& p.index_format == Some(IndexFormat::Uint32)
            &&& p.vertices.resource == ResourceId(0x0001_0000_0000_0001)
            &&& p.vertices.offset == 0
            &&& p.vertices.byte_length == meta.vertex_bytes
            &&& p.indices is Some
            &&& p.indices->Some_0.resource == ResourceId(0x0001_0000_0000_0002)
            &&& p.indices->Some_0.offset == 0
            &&& p.indices->Some_0.byte_length == meta.index_bytes
        }),
{
}

/// The reference range covers exactly the prepared reference bytes from their
/// start, in the helmet's reference resource: the `k`-th transform id is read
/// at bytes `4 * k` to `4 * k + 3` of that range, inside it, and reads back as
/// `k`, one of the table's states. The state table starts at byte 0 of the
/// shared resource it was given and carries the given generation.
pub proof fn lemma_reference_range_covers_ids(state_resource: SharedResourceId, generation: u64, k: int)
    requires
        0 <= k < 4,
    ensures
        ({
            let refs = spec_head_transform_refs(state_resource, generation);
            let bytes = spec_u32s_le(spec_head_transform_ids());
            &&& refs.references.resource == ResourceId(0x0001_0000_0000_0003)
            &&& refs.references.offset == 0
            &&& refs.references.offset + refs.references.byte_length == bytes.len()
            &&& refs.references.offset + 4 * k + 4 <= refs.references.offset + refs.references.byte_length
            &&& le_word(bytes, refs.references.offset + 4 * k) == k
            &&& k < refs.states.state_count
            &&& refs.states.resource == state_resource
            &&& refs.states.offset == 0
            &&& refs.states.generation == generation
            &&& refs.reference_count == 4
        }),
{
    lemma_u32s_le_roundtrip(spec_head_transform_ids(), k);
}

} // verus!
