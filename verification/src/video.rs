//! Three hardware video streams on four unlit quads; the fourth quad shares
//! stream 0. The quad mesh is uploaded once; per frame only texture ids change.
use vstd::prelude::*;
use crate::bytes::{rgba8, spec_rgba8, spec_u32s_le, u32s_to_le_bytes};

verus! {

/// Number of decoded streams.
pub const VIDEO_STREAM_COUNT: usize = 3;

/// Number of textured quads.
pub const QUAD_COUNT: u32 = 4;

/// Vertices of the quad mesh.
pub const QUAD_VERTEX_COUNT: u32 = 4;

/// Indices of the quad mesh.
pub const QUAD_INDEX_COUNT: u32 = 6;

/// Square extent in pixels of each embedded stream's frames.
pub open spec fn spec_video_size(slot: int) -> u32 {
    if slot == 0 {
        48
    } else if slot == 1 {
        128
    } else {
        256
    }
}

/// The frame extent that stream `slot` must deliver.
pub fn video_size(slot: usize) -> (size: u32)
    requires
        slot < VIDEO_STREAM_COUNT,
    ensures
        size == spec_video_size(slot as int),
{
    if slot == 0 {
        48
    } else if slot == 1 {
        128
    } else {
        256
    }
}

/// The quad's two triangles over its four corners.
pub open spec fn spec_quad_indices() -> Seq<u32> {
    seq![0u32, 1u32, 2u32, 0u32, 2u32, 3u32]
}

/// The quad index stream.
pub fn quad_indices() -> (indices: [u32; 6])
    ensures
        indices@ == spec_quad_indices(),
{
    let indices: [u32; 6] = [0, 1, 2, 0, 2, 3];
    assert(indices@ =~= spec_quad_indices());
    indices
}

/// The quad index stream as the little-endian bytes uploaded to the index buffer.
pub fn quad_index_bytes() -> (bytes: Vec<u8>)
    ensures
        bytes@ == spec_u32s_le(spec_quad_indices()),
        bytes@.len() == 4 * QUAD_INDEX_COUNT,
{
    let indices = quad_indices();
    u32s_to_le_bytes(&indices)
}

/// The retained quad mesh: counts match the uploaded streams, and it is drawn
/// from both sides.
#[derive(Clone, Copy, Debug, PartialEq, Eq, Structural)]
pub struct QuadMeshPlan {
    pub vertex_count: u32,
    pub index_count: u32,
    pub double_sided: bool,
}

/// The retained description of the quad mesh.
pub fn quad_mesh_plan() -> (plan: QuadMeshPlan)
    ensures
        plan == (QuadMeshPlan {
            vertex_count: QUAD_VERTEX_COUNT,
            index_count: QUAD_INDEX_COUNT,
            double_sided: true,
        }),
{
    QuadMeshPlan { vertex_count: QUAD_VERTEX_COUNT, index_count: QUAD_INDEX_COUNT, double_sided: true }
}

/// The quad mesh is well formed: it describes exactly the uploaded index
/// stream, whole triangles, and every index names one of its vertices.
pub proof fn lemma_quad_mesh_well_formed(i: int)
    requires
        0 <= i < QUAD_INDEX_COUNT,
    ensures
        spec_quad_indices().len() == QUAD_INDEX_COUNT,
        QUAD_INDEX_COUNT % 3 == 0,
        spec_quad_indices()[i] < QUAD_VERTEX_COUNT,
{
}

/// A range of the shared quad mesh's indices drawn for one quad.
#[derive(Clone, Copy, Debug, PartialEq, Eq, Structural)]
pub struct DrawRange {
    pub first_index: u32,
    pub index_count: u32,
}

/// The integral part of one textured frame: which texture each quad shows,
/// which index range it draws, how many transform seeds and static draws it
/// uses, and the clear colour. The camera and the quads' placements are
/// floating-point data supplied alongside.
#[derive(Clone, Copy, Debug, PartialEq, Eq)]
pub struct TexturedSubmission {
    pub textures: [u64; 4],
    pub ranges: [DrawRange; 4],
    pub seed_count: u32,
    pub static_draw_count: u32,
    pub clear_rgba8_srgb: u32,
}

/// Texture shown on quad `quad` when streams show `textures`: quads 0 to 2 show
/// their own stream, quad 3 repeats stream 0.
pub open spec fn spec_quad_texture(textures: Seq<u64>, quad: int) -> u64 {
    if quad < 3 {
        textures[quad]
    } else {
        textures[0]
    }
}

/// The textured frame for the current stream textures: four quads, each the
/// whole quad mesh, no static draws, without PBR or static passes.
pub fn submission(textures: [u64; 3]) -> (submit: TexturedSubmission)
    ensures
        forall|quad: int| 0 <= quad < QUAD_COUNT ==> #[trigger] submit.textures@[quad] == spec_quad_texture(textures@, quad),
        forall|quad: int| 0 <= quad < QUAD_COUNT ==> #[trigger] submit.ranges@[quad] == (DrawRange {
            first_index: 0,
            index_count: QUAD_INDEX_COUNT,
        }),
        submit.seed_count == QUAD_COUNT,
        submit.static_draw_count == 0,
        submit.clear_rgba8_srgb == spec_rgba8(12, 14, 18, 255),
{
    let range = DrawRange { first_index: 0, index_count: QUAD_INDEX_COUNT };
    let submit = TexturedSubmission {
        textures: [textures[0], textures[1], textures[2], textures[0]],
        ranges: [range, range, range, range],
        seed_count: QUAD_COUNT,
        static_draw_count: 0,
        clear_rgba8_srgb: rgba8(12, 14, 18, 255),
    };
    assert forall|quad: int| 0 <= quad < QUAD_COUNT implies #[trigger] submit.textures@[quad]
        == spec_quad_texture(textures@, quad) by {
        if quad == 0 {
        } else if quad == 1 {
        } else if quad == 2 {
        } else {
        }
    }
    assert forall|quad: int| 0 <= quad < QUAD_COUNT implies #[trigger] submit.ranges@[quad] == range by {
        if quad == 0 {
        } else if quad == 1 {
        } else if quad == 2 {
        } else {
        }
    }
    submit
}

/// Why a polled video frame was refused.
#[derive(Clone, Copy, Debug, PartialEq, Eq, Structural)]
pub enum DemoError {
    /// The stream delivered a frame of another extent than its asset's.
    UnexpectedExtent,
}

/// Playback state of the video view: how many streams run, and the texture of
/// the newest accepted frame of each stream.
#[derive(Clone, Copy, Debug, PartialEq, Eq)]
pub struct Demo {
    pub streams: usize,
    pub frames: [Option<u64>; 3],
}

impl Demo {
    /// Streams either all run or none do, and a stopped view holds no frames.
    pub open spec fn wf(&self) -> bool {
        &&& self.streams == 0 || self.streams == VIDEO_STREAM_COUNT
        &&& self.streams == 0 ==> forall|i: int| 0 <= i < 3 ==> #[trigger] self.frames@[i] is None
    }

    /// Every stream has delivered a frame.
    pub open spec fn spec_ready(&self) -> bool {
        forall|i: int| 0 <= i < 3 ==> #[trigger] self.frames@[i] is Some
    }

    /// A view with no streams and no frames.
    pub fn open() -> (demo: Demo)
        ensures
            demo.wf(),
            demo.streams == 0,
            forall|i: int| 0 <= i < 3 ==> #[trigger] demo.frames@[i] is None,
    {
        Demo { streams: 0, frames: [None, None, None] }
    }

    /// Whether the streams run.
    pub fn running(&self) -> (running: bool)
        ensures
            running == (self.streams != 0),
    {
        self.streams != 0
    }

    /// Record that all streams were opened. A running view is not started
    /// again (its streams are kept), so the caller opens streams only when
    /// `running` is false.
    pub fn start(&mut self)
        requires
            old(self).wf(),
        ensures
            final(self).wf(),
            final(self).streams == VIDEO_STREAM_COUNT,
            final(self).frames == old(self).frames,
    {
        self.streams = VIDEO_STREAM_COUNT;
    }

    /// Stop all streams and drop every held frame.
    pub fn stop(&mut self)
        ensures
            final(self).wf(),
            final(self).streams == 0,
            forall|i: int| 0 <= i < 3 ==> #[trigger] final(self).frames@[i] is None,
    {
        self.frames = [None, None, None];
        self.streams = 0;
    }

    /// Accept a frame polled from stream `slot`, of extent `width` x `height`
    /// and texture `texture_id`. A frame of another extent than the stream's
    /// asset is refused and changes nothing; an accepted frame replaces the
    /// stream's previous one.
    pub fn accept_frame(&mut self, slot: usize, width: u32, height: u32, texture_id: u64) -> (result:
        Result<(), DemoError>)
        requires
            old(self).wf(),
            slot < old(self).streams,
        ensures
            final(self).wf(),
            final(self).streams == old(self).streams,
            result is Ok <==> (width == spec_video_size(slot as int) && height == spec_video_size(
                slot as int,
            )),
            result is Ok ==> final(self).frames@ == old(self).frames@.update(slot as int, Some(texture_id)),
            result is Err ==> *final(self) == *old(self) && result == Err::<(), DemoError>(
                DemoError::UnexpectedExtent,
            ),
    {
        let size = video_size(slot);
        if width != size || height != size {
            return Err(DemoError::UnexpectedExtent);
        }
        self.frames[slot] = Some(texture_id);
        Ok(())
    }

    /// Whether every stream has delivered a frame, so that the view can render.
    pub fn ready(&self) -> (ready: bool)
        ensures
            ready == self.spec_ready(),
    {
        self.frames[0].is_some() && self.frames[1].is_some() && self.frames[2].is_some()
    }

    /// The textures of the held frames, stream by stream.
    pub fn texture_ids(&self) -> (ids: [u64; 3])
        requires
            self.spec_ready(),
        ensures
            forall|i: int| 0 <= i < 3 ==> #[trigger] self.frames@[i] == Some(ids@[i]),
    {
        assert(self.frames@[0] is Some);
        assert(self.frames@[1] is Some);
        assert(self.frames@[2] is Some);
        let ids = [self.frames[0].unwrap(), self.frames[1].unwrap(), self.frames[2].unwrap()];
        assert forall|i: int| 0 <= i < 3 implies #[trigger] self.frames@[i] == Some(ids@[i]) by {
            if i == 0 {
            } else if i == 1 {
            } else {
            }
        }
        ids
    }

    /// The textured frame that shows the held frames.
    pub fn render(&self) -> (submit: TexturedSubmission)
        requires
            self.spec_ready(),
        ensures
            forall|quad: int| 0 <= quad < QUAD_COUNT ==> Some(#[trigger] submit.textures@[quad])
                == self.frames@[if quad < 3 { quad } else { 0 }],
            forall|quad: int| 0 <= quad < QUAD_COUNT ==> #[trigger] submit.ranges@[quad] == (DrawRange {
                first_index: 0,
                index_count: QUAD_INDEX_COUNT,
            }),
            submit.seed_count == QUAD_COUNT,
            submit.static_draw_count == 0,
            submit.clear_rgba8_srgb == spec_rgba8(12, 14, 18, 255),
    {
        let ids = self.texture_ids();
        let submit = submission(ids);
        assert forall|quad: int| 0 <= quad < QUAD_COUNT implies Some(#[trigger] submit.textures@[quad])
            == self.frames@[if quad < 3 { quad } else { 0 }] by {
            assert(submit.textures@[quad] == spec_quad_texture(ids@, quad));
        }
        submit
    }
}

} // verus!
