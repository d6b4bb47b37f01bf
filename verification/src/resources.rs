//! Logical resource identities and byte ranges: the only handles that cross from
//! the prepared geometry to the platform that materializes GPU buffers.
use vstd::prelude::*;

verus! {

/// Identity of a prepared (immutable, host-built) resource.
#[derive(Clone, Copy, Debug, PartialEq, Eq, Structural)]
pub struct ResourceId(pub u64);

/// Identity of a shared, platform-materialized resource.
#[derive(Clone, Copy, Debug, PartialEq, Eq, Structural)]
pub struct SharedResourceId(pub u64);

/// A byte range relative to the start of a prepared resource.
#[derive(Clone, Copy, Debug, PartialEq, Eq, Structural)]
pub struct PreparedRange {
    pub resource: ResourceId,
    pub offset: u64,
    pub byte_length: u64,
    pub revision: u32,
}

/// A byte range relative to the start of a shared resource.
#[derive(Clone, Copy, Debug, PartialEq, Eq, Structural)]
pub struct SharedByteRange {
    pub resource: SharedResourceId,
    pub offset: u64,
    pub byte_length: u64,
}

/// How an index stream is assembled into primitives.
#[derive(Clone, Copy, Debug, PartialEq, Eq, Structural)]
pub enum PrimitiveTopology {
    PointList,
    LineList,
    LineLoop,
    LineStrip,
    TriangleList,
    TriangleStrip,
    TriangleFan,
}

/// Width of one index.
#[derive(Clone, Copy, Debug, PartialEq, Eq, Structural)]
pub enum IndexFormat {
    Uint16,
    Uint32,
}

/// One executable primitive: topology plus the resource ranges that hold its
/// vertex and (optional) index streams.
#[derive(Clone, Copy, Debug, PartialEq, Eq, Structural)]
pub struct ExecutablePrimitive {
    pub topology: PrimitiveTopology,
    pub vertices: PreparedRange,
    pub indices: Option<PreparedRange>,
    pub index_format: Option<IndexFormat>,
    pub vertex_stride: u32,
    pub vertex_count: u32,
    pub index_count: u32,
}

/// A table of `state_count` transform states of `state_stride` bytes each, inside
/// a shared resource.
#[derive(Clone, Copy, Debug, PartialEq, Eq, Structural)]
pub struct TransformStateRange {
    pub resource: SharedResourceId,
    pub offset: u64,
    pub byte_length: u64,
    pub state_count: u32,
    pub state_stride: u32,
    pub generation: u64,
}

/// A mesh-local list of `reference_count` `u32` transform ids, each naming one
/// state of `states`.
#[derive(Clone, Copy, Debug, PartialEq, Eq, Structural)]
pub struct TransformRefList {
    pub states: TransformStateRange,
    pub references: PreparedRange,
    pub reference_count: u32,
}

} // verus!
