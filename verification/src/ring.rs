//! Sizing of the page-pinned shared execution ring and its cache-visibility
//! adapter. Every maintenance operation is expressed relative to the ring's own
//! shared resource; no GPU address is involved.
use vstd::prelude::*;
use crate::resources::{SharedByteRange, SharedResourceId};

verus! {

/// Errors of the ring layer.
#[derive(Clone, Copy, Debug, PartialEq, Eq, Structural)]
pub enum CubismError {
    /// `slot_count * slot_stride` does not fit in `usize`.
    SizeOverflow,
    /// A cache maintenance request could not be carried out.
    VisibilityFailed,
    /// The ring layer refused the region for another reason.
    Rejected,
}

/// Why a shared ring could not be set up.
#[derive(Clone, Copy, Debug, PartialEq, Eq, Structural)]
pub enum VVideoRingError {
    /// The platform refused the allocation with this status.
    Vgpu(i32),
    /// The ring layer refused the region.
    Cubism(CubismError),
}

/// Geometry of a shared execution ring: which resource it lives in and how its
/// slots divide the region.
#[derive(Clone, Copy, Debug, PartialEq, Eq, Structural)]
pub struct VVideoRing {
    pub resource: SharedResourceId,
    pub slot_count: usize,
    pub slot_stride: usize,
    pub total_bytes: usize,
}

impl VVideoRing {
    /// The ring layout for `slot_count` slots of `slot_stride` bytes in
    /// `resource`: the region must hold every slot, and the byte total must fit
    /// in `usize`.
    pub fn layout(resource: SharedResourceId, slot_count: usize, slot_stride: usize) -> (result:
        Result<VVideoRing, VVideoRingError>)
        ensures
            result is Ok <==> slot_count * slot_stride <= usize::MAX,
            result matches Ok(ring) ==> ring == (VVideoRing {
                resource,
                slot_count,
                slot_stride,
                total_bytes: (slot_count * slot_stride) as usize,
            }),
            result is Err ==> result == Err::<VVideoRing, VVideoRingError>(
                VVideoRingError::Cubism(CubismError::SizeOverflow),
            ),
    {
        match slot_count.checked_mul(slot_stride) {
            Some(total_bytes) => Ok(VVideoRing { resource, slot_count, slot_stride, total_bytes }),
            None => Err(VVideoRingError::Cubism(CubismError::SizeOverflow)),
        }
    }

    /// The visibility adapter of this ring: it accepts ranges of the ring's own
    /// resource only.
    pub fn visibility(&self) -> (visibility: VVideoVisibility)
        ensures
            visibility.resource == self.resource,
    {
        VVideoVisibility { resource: self.resource }
    }
}

/// Direction of a cache maintenance operation.
#[derive(Clone, Copy, Debug, PartialEq, Eq, Structural)]
pub enum CacheOp {
    /// Write CPU-written bytes back so the GPU sees them.
    Flush,
    /// Drop stale CPU cache lines so the CPU sees GPU-written bytes.
    Invalidate,
}

/// One cache maintenance operation over `bytes` bytes at `offset` of the ring's memory.
#[derive(Clone, Copy, Debug, PartialEq, Eq, Structural)]
pub struct CacheMaintenance {
    pub op: CacheOp,
    pub offset: usize,
    pub bytes: usize,
}

/// Cache adapter for a ring. Slot data is flushed first, then the published
/// header control line; after retirement only the GPU-owned payload is
/// invalidated.
#[derive(Clone, Copy, Debug, PartialEq, Eq, Structural)]
pub struct VVideoVisibility {
    pub resource: SharedResourceId,
}

/// `value` as a `usize`, if it fits.
pub fn u64_to_usize(value: u64) -> (result: Option<usize>)
    ensures
        result is Some <==> value <= usize::MAX,
        result matches Some(v) ==> v == value,
{
    if value <= usize::MAX as u64 {
        Some(value as usize)
    } else {
        None
    }
}

/// The maintenance a visibility request asks for, or why it is refused.
pub open spec fn spec_maintain(resource: SharedResourceId, range: SharedByteRange, op: CacheOp) -> Result<
    CacheMaintenance,
    CubismError,
> {
    if range.resource != resource || range.offset > usize::MAX || range.byte_length > usize::MAX {
        Err(CubismError::VisibilityFailed)
    } else {
        Ok(
            CacheMaintenance {
                op,
                offset: range.offset as usize,
                bytes: range.byte_length as usize,
            },
        )
    }
}

impl VVideoVisibility {
    /// Turn a resource-relative range into one maintenance operation on the
    /// ring's memory. A range of another resource, or one that does not fit in
    /// `usize`, is refused.
    pub fn maintain(&self, range: SharedByteRange, op: CacheOp) -> (result: Result<
        CacheMaintenance,
        CubismError,
    >)
        ensures
            result == spec_maintain(self.resource, range, op),
    {
        if range.resource.0 != self.resource.0 {
            return Err(CubismError::VisibilityFailed);
        }
        let offset = match u64_to_usize(range.offset) {
            Some(offset) => offset,
            None => return Err(CubismError::VisibilityFailed),
        };
        let bytes = match u64_to_usize(range.byte_length) {
            Some(bytes) => bytes,
            None => return Err(CubismError::VisibilityFailed),
        };
        Ok(CacheMaintenance { op, offset, bytes })
    }

    /// CPU wrote slot data that the GPU must see: flush it.
    pub fn cpu_make_gpu_visible(&self, range: SharedByteRange) -> (result: Result<
        CacheMaintenance,
        CubismError,
    >)
        ensures
            result == spec_maintain(self.resource, range, CacheOp::Flush),
    {
        self.maintain(range, CacheOp::Flush)
    }

    /// CPU published a slot header: flush its control line.
    pub fn cpu_publish_slot(&self, range: SharedByteRange) -> (result: Result<
        CacheMaintenance,
        CubismError,
    >)
        ensures
            result == spec_maintain(self.resource, range, CacheOp::Flush),
    {
        self.maintain(range, CacheOp::Flush)
    }

    /// GPU wrote payload bytes that the CPU must read: invalidate them.
    pub fn gpu_make_cpu_visible(&self, range: SharedByteRange) -> (result: Result<
        CacheMaintenance,
        CubismError,
    >)
        ensures
            result == spec_maintain(self.resource, range, CacheOp::Invalidate),
    {
        self.maintain(range, CacheOp::Invalidate)
    }
}

/// The outcome of a maintenance operation as the ring layer sees it: any status
/// from the memory is a visibility failure.
pub fn maintenance_outcome(status: Result<(), i32>) -> (result: Result<(), CubismError>)
    ensures
        status is Ok ==> result is Ok,
        status is Err ==> result == Err::<(), CubismError>(CubismError::VisibilityFailed),
{
    match status {
        Ok(()) => Ok(()),
        Err(_) => Err(CubismError::VisibilityFailed),
    }
}

/// A maintenance operation never leaves the range it was asked for: it covers
/// exactly the requested bytes of the ring's own resource, and each request
/// goes in its fixed direction.
pub proof fn lemma_maintenance_is_resource_relative(
    visibility: VVideoVisibility,
    range: SharedByteRange,
    op: CacheOp,
)
    ensures
        spec_maintain(visibility.resource, range, op) matches Ok(m) ==> {
            &&& range.resource == visibility.resource
            &&& m.offset == range.offset
            &&& m.bytes == range.byte_length
            &&& m.op == op
        },
        range.resource != visibility.resource ==> spec_maintain(visibility.resource, range, op)
            == Err::<CacheMaintenance, CubismError>(CubismError::VisibilityFailed),
{
}

/// The ring refuses a visibility request only for a range of another resource
/// or one whose offset or length does not fit in `usize`: every range of its own
/// resource that fits is accepted, as one operation of the requested direction
/// over exactly the requested bytes, wherever in the ring it starts.
pub proof fn lemma_own_fitting_ranges_accepted(resource: SharedResourceId, range: SharedByteRange, op: CacheOp)
    ensures
        range.resource == resource && range.offset <= usize::MAX && range.byte_length <= usize::MAX
            ==> spec_maintain(resource, range, op) == Ok::<CacheMaintenance, CubismError>(
            CacheMaintenance { op, offset: range.offset as usize, bytes: range.byte_length as usize },
        ),
        spec_maintain(resource, range, op) is Err <==> (range.resource != resource || range.offset
            > usize::MAX || range.byte_length > usize::MAX),
{
}

} // verus!
