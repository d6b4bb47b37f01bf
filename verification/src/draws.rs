//! Draw plans for the mixed-topology frame: the helmet as one native
//! triangle-list draw, then three coloured reference lines as independent
//! native line-list draws in the same render pass.
use vstd::prelude::*;
use crate::bytes::{rgba8, spec_rgba8, spec_u32s_le, u32s_to_le_bytes};
use crate::resources::PrimitiveTopology;

verus! {

/// Number of static reference lines (red, green, blue).
pub const LINE_COUNT: u32 = 3;

/// Indices per line draw.
pub const LINE_INDEX_COUNT: u32 = 2;

/// The shared line index stream: every line is the pair `[0, 1]` relative to
/// its own base vertex.
pub open spec fn spec_grid_indices() -> Seq<u32> {
    seq![0u32, 1u32, 0u32, 1u32, 0u32, 1u32]
}

/// The line index stream uploaded next to the line vertices.
pub fn grid_indices() -> (indices: [u32; 6])
    ensures
        indices@ == spec_grid_indices(),
{
    let indices: [u32; 6] = [0, 1, 0, 1, 0, 1];
    assert(indices@ =~= spec_grid_indices());
    indices
}

/// The line index stream as the little-endian bytes written to the line index buffer.
pub fn line_index_bytes() -> (bytes: Vec<u8>)
    ensures
        bytes@ == spec_u32s_le(spec_grid_indices()),
        bytes@.len() == 24,
{
    let indices = grid_indices();
    u32s_to_le_bytes(&indices)
}

/// sRGB RGBA8 colour of the helmet draw.
pub open spec fn spec_helmet_rgba() -> u32 {
    spec_rgba8(210, 215, 225, 255)
}

/// sRGB RGBA8 colour of reference line `slot`: red, green, then blue.
pub open spec fn spec_line_rgba(slot: int) -> u32 {
    if slot == 0 {
        spec_rgba8(255, 32, 32, 255)
    } else if slot == 1 {
        spec_rgba8(32, 255, 32, 255)
    } else {
        spec_rgba8(32, 96, 255, 255)
    }
}

/// Colour of reference line `slot`.
pub fn line_rgba(slot: u32) -> (rgba: u32)
    requires
        slot < LINE_COUNT,
    ensures
        rgba == spec_line_rgba(slot as int),
{
    if slot == 0 {
        rgba8(255, 32, 32, 255)
    } else if slot == 1 {
        rgba8(32, 255, 32, 255)
    } else {
        rgba8(32, 96, 255, 255)
    }
}

/// One indexed draw of the mixed-topology plan.
#[derive(Clone, Copy, Debug, PartialEq, Eq, Structural)]
pub struct MixedTopologyDraw {
    pub index_count: u32,
    pub first_index: u32,
    pub base_vertex: i32,
    pub rgba8_srgb: u32,
    pub topology: PrimitiveTopology,
}

/// Line `slot` of the mixed plan: its two indices follow the helmet's
/// `helmet_index_count` indices and address its own two vertices after the
/// helmet's `helmet_vertex_count` vertices.
pub open spec fn spec_mixed_line_draw(
    helmet_index_count: u32,
    helmet_vertex_count: u32,
    slot: int,
) -> MixedTopologyDraw {
    MixedTopologyDraw {
        index_count: LINE_INDEX_COUNT,
        first_index: (helmet_index_count + 2 * slot) as u32,
        base_vertex: (helmet_vertex_count + 2 * slot) as i32,
        rgba8_srgb: spec_line_rgba(slot),
        topology: PrimitiveTopology::LineList,
    }
}

/// The helmet draw of the mixed plan: all helmet indices from index 0.
pub open spec fn spec_mixed_helmet_draw(helmet_index_count: u32) -> MixedTopologyDraw {
    MixedTopologyDraw {
        index_count: helmet_index_count,
        first_index: 0,
        base_vertex: 0,
        rgba8_srgb: spec_helmet_rgba(),
        topology: PrimitiveTopology::TriangleList,
    }
}

fn mixed_line_draw(helmet_index_count: u32, helmet_vertex_count: u32, slot: u32) -> (draw:
    MixedTopologyDraw)
    requires
        slot < LINE_COUNT,
        helmet_index_count + 2 * LINE_COUNT <= u32::MAX,
        helmet_vertex_count + 2 * LINE_COUNT <= u32::MAX,
    ensures
        draw == spec_mixed_line_draw(helmet_index_count, helmet_vertex_count, slot as int),
{
    MixedTopologyDraw {
        index_count: LINE_INDEX_COUNT,
        first_index: helmet_index_count + slot * 2,
        base_vertex: (helmet_vertex_count + slot * 2) as i32,
        rgba8_srgb: line_rgba(slot),
        topology: PrimitiveTopology::LineList,
    }
}

/// The four draws of one mixed-topology frame over a combined index buffer
/// (helmet indices, then the line indices) and a combined vertex buffer
/// (helmet vertices, then the line vertices): draw 0 is the helmet triangle
/// list, draws 1 to 3 are the red, green and blue line lists.
pub fn mixed_topology_plan(helmet_index_count: u32, helmet_vertex_count: u32) -> (draws: [MixedTopologyDraw; 4])
    requires
        helmet_index_count + 2 * LINE_COUNT <= u32::MAX,
        helmet_vertex_count + 2 * LINE_COUNT <= u32::MAX,
    ensures
        draws@.len() == 4,
        draws@[0] == spec_mixed_helmet_draw(helmet_index_count),
        forall|slot: int|
            0 <= slot < LINE_COUNT ==> #[trigger] draws@[slot + 1] == spec_mixed_line_draw(
                helmet_index_count,
                helmet_vertex_count,
                slot,
            ),
{
    let helmet = MixedTopologyDraw {
        index_count: helmet_index_count,
        first_index: 0,
        base_vertex: 0,
        rgba8_srgb: rgba8(210, 215, 225, 255),
        topology: PrimitiveTopology::TriangleList,
    };
    let red = mixed_line_draw(helmet_index_count, helmet_vertex_count, 0);
    let green = mixed_line_draw(helmet_index_count, helmet_vertex_count, 1);
    let blue = mixed_line_draw(helmet_index_count, helmet_vertex_count, 2);
    let draws = [helmet, red, green, blue];
    assert forall|slot: int| 0 <= slot < LINE_COUNT implies #[trigger] draws@[slot + 1]
        == spec_mixed_line_draw(helmet_index_count, helmet_vertex_count, slot) by {
        if slot == 0 {
        } else if slot == 1 {
        } else {
        }
    }
    draws
}

/// One native indexed draw of the retained static pass, over the line vertex
/// and line index buffers alone.
#[derive(Clone, Copy, Debug, PartialEq, Eq, Structural)]
pub struct IndexedBatchDraw {
    pub index_count: u32,
    pub first_index: u32,
    pub base_vertex: i32,
    pub rgba8_srgb: u32,
    pub topology: PrimitiveTopology,
}

/// Retained static line `slot`: indices `2 * slot` and `2 * slot + 1` of the line
/// index buffer, relative to vertex `2 * slot` of the line vertex buffer.
pub open spec fn spec_retained_line_draw(slot: int) -> IndexedBatchDraw {
    IndexedBatchDraw {
        index_count: LINE_INDEX_COUNT,
        first_index: (2 * slot) as u32,
        base_vertex: (2 * slot) as i32,
        rgba8_srgb: spec_line_rgba(slot),
        topology: PrimitiveTopology::LineList,
    }
}

fn retained_line_draw(slot: u32) -> (draw: IndexedBatchDraw)
    requires
        slot < LINE_COUNT,
    ensures
        draw == spec_retained_line_draw(slot as int),
{
    IndexedBatchDraw {
        index_count: LINE_INDEX_COUNT,
        first_index: slot * 2,
        base_vertex: (slot * 2) as i32,
        rgba8_srgb: line_rgba(slot),
        topology: PrimitiveTopology::LineList,
    }
}

/// The three static line draws of the retained frame. They carry no transform
/// references: the lines stay a fixed frame reference.
pub fn retained_line_draws() -> (draws: [IndexedBatchDraw; 3])
    ensures
        draws@.len() == LINE_COUNT,
        forall|slot: int| 0 <= slot < LINE_COUNT ==> #[trigger] draws@[slot] == spec_retained_line_draw(slot),
{
    let draws = [retained_line_draw(0), retained_line_draw(1), retained_line_draw(2)];
    assert forall|slot: int| 0 <= slot < LINE_COUNT implies #[trigger] draws@[slot]
        == spec_retained_line_draw(slot) by {
        if slot == 0 {
        } else if slot == 1 {
        } else {
        }
    }
    draws
}

/// Vertex that index `k` of a draw reaches: its base vertex plus the `k`-th
/// index it reads, taken from `indices` at `first_index - index_origin + k`.
pub open spec fn addressed_vertex(
    base_vertex: int,
    first_index: int,
    index_origin: int,
    indices: Seq<u32>,
    k: int,
) -> int {
    base_vertex + indices[first_index - index_origin + k]
}

/// The retained lines are independent native line draws: each stays inside the
/// line index stream, each reaches two vertices of its own, and two different
/// lines never share a vertex.
pub proof fn lemma_retained_lines_independent(s: int, t: int, k: int, m: int)
    requires
        0 <= s < LINE_COUNT,
        0 <= t < LINE_COUNT,
        0 <= k < LINE_INDEX_COUNT,
        0 <= m < LINE_INDEX_COUNT,
    ensures
        ({
            let ds = spec_retained_line_draw(s);
            let dt = spec_retained_line_draw(t);
            let g = spec_grid_indices();
            &&& ds.first_index + ds.index_count <= g.len()
            &&& addressed_vertex(ds.base_vertex as int, ds.first_index as int, 0, g, k) == 2 * s + k
            &&& s != t ==> addressed_vertex(ds.base_vertex as int, ds.first_index as int, 0, g, k)
                != addressed_vertex(dt.base_vertex as int, dt.first_index as int, 0, g, m)
        }),
{
    let g = spec_grid_indices();
    assert(g[0] == 0 && g[1] == 1 && g[2] == 0 && g[3] == 1 && g[4] == 0 && g[5] == 1);
}

/// The mixed plan places the retained lines after the helmet: line `slot` is the
/// retained line draw with its indices moved past the helmet's indices and its
/// vertices past the helmet's vertices, in the same colour and topology, and
/// the helmet draw's index range ends where the first line's begins.
pub proof fn lemma_mixed_plan_extends_retained_lines(
    helmet_index_count: u32,
    helmet_vertex_count: u32,
    slot: int,
)
    requires
        helmet_index_count + 2 * LINE_COUNT <= u32::MAX,
        helmet_vertex_count + 2 * LINE_COUNT <= i32::MAX,
        0 <= slot < LINE_COUNT,
    ensures
        ({
            let line = spec_mixed_line_draw(helmet_index_count, helmet_vertex_count, slot);
            let retained = spec_retained_line_draw(slot);
            let helmet = spec_mixed_helmet_draw(helmet_index_count);
            &&& line.index_count == retained.index_count
            &&& line.first_index == helmet_index_count + retained.first_index
            &&& line.base_vertex == helmet_vertex_count + retained.base_vertex
            &&& line.rgba8_srgb == retained.rgba8_srgb
            &&& line.topology == retained.topology
            &&& helmet.first_index + helmet.index_count <= line.first_index
        }),
{
}

} // verus!
