//! Window interaction of the geometry probe: UI4's one-shot maximize/restore
//! extent, the cursor-sized bottom-right resize grip with its live drag, and
//! the frame clock that turns elapsed time into per-frame steps.
use vstd::prelude::*;

verus! {

/// Side of the square resize grip in the frame's bottom-right corner, in pixels.
pub const RESIZE_GRIP_PX: i32 = 16;

/// Smallest width a live resize can reach.
pub const MIN_WIDTH: u32 = 160;

/// Smallest height a live resize can reach.
pub const MIN_HEIGHT: u32 = 90;

/// Identity of the device that routes pointer samples (a mouse, a touch point).
#[derive(Clone, Copy, Debug, PartialEq, Eq, Structural)]
pub struct CursorSource(pub u64);

/// Cursor shape requested for a pointer source.
#[derive(Clone, Copy, Debug, PartialEq, Eq, Structural)]
pub enum CursorIcon {
    Default,
    ResizeDiagonal,
}

/// A frame extent in pixels.
#[derive(Clone, Copy, Debug, PartialEq, Eq, Structural)]
pub struct FrameExtent {
    pub width: u32,
    pub height: u32,
}

/// One routed pointer sample: frame-local position, output position, and the
/// primary button's edge and level.
#[derive(Clone, Copy, Debug, PartialEq, Eq, Structural)]
pub struct PointerSample {
    pub source: CursorSource,
    pub local_x: i32,
    pub local_y: i32,
    pub x: u32,
    pub y: u32,
    pub primary_pressed: bool,
    pub primary_released: bool,
    pub primary_down: bool,
}

/// A live resize: the source that owns it, where it was grabbed, and the frame
/// extent at that moment.
#[derive(Clone, Copy, Debug, PartialEq, Eq, Structural)]
pub struct ResizeDrag {
    pub source: CursorSource,
    pub anchor_x: u32,
    pub anchor_y: u32,
    pub width: u32,
    pub height: u32,
}

/// The state carried across the pointer samples of one frame: the drag, and
/// the last extent that the drag asked for during this frame.
#[derive(Clone, Copy, Debug, PartialEq, Eq, Structural)]
pub struct PointerPass {
    pub drag: Option<ResizeDrag>,
    pub live_extent: Option<FrameExtent>,
}

/// Frame-local coordinates `(x, y)` lie in the resize grip of a frame of the
/// given extent. The extent is read as `i32`, as the frame-local coordinates are.
pub open spec fn spec_in_grip(frame_width: u32, frame_height: u32, x: i32, y: i32) -> bool {
    &&& x >= (frame_width as i32) - RESIZE_GRIP_PX
    &&& y >= (frame_height as i32) - RESIZE_GRIP_PX
    &&& x < (frame_width as i32)
    &&& y < (frame_height as i32)
}

/// The grip's left and top edges can be formed as `i32`.
pub open spec fn grip_edges_fit(frame_width: u32, frame_height: u32) -> bool {
    &&& (frame_width as i32) - RESIZE_GRIP_PX >= i32::MIN
    &&& (frame_height as i32) - RESIZE_GRIP_PX >= i32::MIN
}

/// Whether frame-local coordinates lie in the resize grip.
pub fn in_grip(frame_width: u32, frame_height: u32, x: i32, y: i32) -> (inside: bool)
    requires
        grip_edges_fit(frame_width, frame_height),
    ensures
        inside == spec_in_grip(frame_width, frame_height, x, y),
{
    let w = frame_width as i32;
    let h = frame_height as i32;
    x >= w - RESIZE_GRIP_PX && y >= h - RESIZE_GRIP_PX && x < w && y < h
}

/// `value` limited to `[lo, hi]`.
pub open spec fn spec_clamp(value: int, lo: int, hi: int) -> int {
    if value < lo {
        lo
    } else if value > hi {
        hi
    } else {
        value
    }
}

/// The drag after a sample's press has been considered: a primary press inside
/// the grip (re)starts a drag owned by the sample's source, anchored at the
/// sample, from the current frame extent.
pub open spec fn spec_drag_after_press(
    drag: Option<ResizeDrag>,
    frame_width: u32,
    frame_height: u32,
    event: PointerSample,
) -> Option<ResizeDrag> {
    if event.primary_pressed && spec_in_grip(frame_width, frame_height, event.local_x, event.local_y) {
        Some(
            ResizeDrag {
                source: event.source,
                anchor_x: event.x,
                anchor_y: event.y,
                width: frame_width,
                height: frame_height,
            },
        )
    } else {
        drag
    }
}

/// The sample moves a drag: after the press check a drag exists and belongs
/// to the sample's source.
pub open spec fn spec_moves_drag(
    drag: Option<ResizeDrag>,
    frame_width: u32,
    frame_height: u32,
    event: PointerSample,
) -> bool {
    match spec_drag_after_press(drag, frame_width, frame_height, event) {
        Some(active) => active.source == event.source,
        None => false,
    }
}

/// The extent a drag asks for when its source is at output position `(x, y)`:
/// the grabbed extent moved by the pointer's travel since the anchor, limited to
/// at least the minimum extent and at most the output extent.
pub open spec fn spec_drag_extent(
    active: ResizeDrag,
    x: u32,
    y: u32,
    output_width: u32,
    output_height: u32,
) -> FrameExtent {
    FrameExtent {
        width: spec_clamp(active.width + x - active.anchor_x, MIN_WIDTH as int, output_width as int) as u32,
        height: spec_clamp(active.height + y - active.anchor_y, MIN_HEIGHT as int, output_height as int) as u32,
    }
}

/// What one pointer sample does to the pass, as `pointer_step` computes it.
pub open spec fn spec_pointer_step(
    pass: PointerPass,
    frame_width: u32,
    frame_height: u32,
    output_width: u32,
    output_height: u32,
    event: PointerSample,
) -> PointerPass {
    let drag = spec_drag_after_press(pass.drag, frame_width, frame_height, event);
    if spec_moves_drag(pass.drag, frame_width, frame_height, event) {
        let active = drag->Some_0;
        PointerPass {
            drag: if event.primary_released || !event.primary_down {
                None
            } else {
                drag
            },
            live_extent: Some(spec_drag_extent(active, event.x, event.y, output_width, output_height)),
        }
    } else {
        PointerPass { drag, live_extent: pass.live_extent }
    }
}

/// The cursor shape for a sample: the resize shape inside the grip or for the
/// source that owns the drag (as it stood before the sample).
pub open spec fn spec_cursor_icon(
    drag: Option<ResizeDrag>,
    frame_width: u32,
    frame_height: u32,
    event: PointerSample,
) -> CursorIcon {
    let owns = match drag {
        Some(active) => active.source == event.source,
        None => false,
    };
    if spec_in_grip(frame_width, frame_height, event.local_x, event.local_y) || owns {
        CursorIcon::ResizeDiagonal
    } else {
        CursorIcon::Default
    }
}

/// What a pointer step needs: the grip edges fit `i32`, and a sample that moves
/// a drag is clamped into an output extent no smaller than the minimum extent.
pub open spec fn pointer_step_defined(
    pass: PointerPass,
    frame_width: u32,
    frame_height: u32,
    output_width: u32,
    output_height: u32,
    event: PointerSample,
) -> bool {
    &&& grip_edges_fit(frame_width, frame_height)
    &&& spec_moves_drag(pass.drag, frame_width, frame_height, event) ==> {
        &&& MIN_WIDTH <= output_width
        &&& MIN_HEIGHT <= output_height
    }
}

/// Whether `pointer_step` is defined for this sample: the caller tests it first.
pub fn step_is_defined(
    pass: &PointerPass,
    frame_width: u32,
    frame_height: u32,
    output_width: u32,
    output_height: u32,
    event: &PointerSample,
) -> (defined: bool)
    ensures
        defined == pointer_step_defined(*pass, frame_width, frame_height, output_width, output_height, *event),
{
    let w = frame_width as i32;
    let h = frame_height as i32;
    if w < i32::MIN + RESIZE_GRIP_PX || h < i32::MIN + RESIZE_GRIP_PX {
        return false;
    }
    let grip = in_grip(frame_width, frame_height, event.local_x, event.local_y);
    let drag = if event.primary_pressed && grip {
        Some(
            ResizeDrag {
                source: event.source,
                anchor_x: event.x,
                anchor_y: event.y,
                width: frame_width,
                height: frame_height,
            },
        )
    } else {
        pass.drag
    };
    let moves = match drag {
        Some(active) => active.source.0 == event.source.0,
        None => false,
    };
    !moves || (MIN_WIDTH <= output_width && MIN_HEIGHT <= output_height)
}

/// A fresh pointer pass that continues the drag kept from the previous frame.
pub fn begin_pointer_pass(drag: Option<ResizeDrag>) -> (pass: PointerPass)
    ensures
        pass == (PointerPass { drag, live_extent: None }),
{
    PointerPass { drag, live_extent: None }
}

fn clamp_i64(value: i64, lo: i64, hi: i64) -> (r: i64)
    requires
        lo <= hi,
    ensures
        r == spec_clamp(value as int, lo as int, hi as int),
{
    if value < lo {
        lo
    } else if value > hi {
        hi
    } else {
        value
    }
}

/// Apply one pointer sample to the pass and return the cursor shape to set for
/// the sample's source.
pub fn pointer_step(
    pass: &mut PointerPass,
    frame_width: u32,
    frame_height: u32,
    output_width: u32,
    output_height: u32,
    event: PointerSample,
) -> (icon: CursorIcon)
    requires
        pointer_step_defined(*old(pass), frame_width, frame_height, output_width, output_height, event),
    ensures
        icon == spec_cursor_icon(old(pass).drag, frame_width, frame_height, event),
        *final(pass) == spec_pointer_step(
            *old(pass),
            frame_width,
            frame_height,
            output_width,
            output_height,
            event,
        ),
{
    let grip = in_grip(frame_width, frame_height, event.local_x, event.local_y);
    let owns_drag = match pass.drag {
        Some(active) => active.source.0 == event.source.0,
        None => false,
    };
    let icon = if grip || owns_drag {
        CursorIcon::ResizeDiagonal
    } else {
        CursorIcon::Default
    };
    let mut drag = pass.drag;
    if event.primary_pressed && grip {
        drag = Some(
            ResizeDrag {
                source: event.source,
                anchor_x: event.x,
                anchor_y: event.y,
                width: frame_width,
                height: frame_height,
            },
        );
    }
    match drag {
        Some(active) => {
            if active.source.0 == event.source.0 {
                let width = clamp_i64(
                    active.width as i64 + event.x as i64 - active.anchor_x as i64,
                    MIN_WIDTH as i64,
                    output_width as i64,
                ) as u32;
                let height = clamp_i64(
                    active.height as i64 + event.y as i64 - active.anchor_y as i64,
                    MIN_HEIGHT as i64,
                    output_height as i64,
                ) as u32;
                pass.live_extent = Some(FrameExtent { width, height });
                if event.primary_released || !event.primary_down {
                    drag = None;
                }
            }
        },
        None => {},
    }
    pass.drag = drag;
    icon
}

/// The extent to resize to, if `requested` differs from the current extent.
pub open spec fn spec_resize_target(requested: Option<FrameExtent>, width: u32, height: u32) -> Option<FrameExtent> {
    match requested {
        Some(extent) => if extent.width != width || extent.height != height {
            Some(extent)
        } else {
            None
        },
        None => None,
    }
}

/// The extent to resize the frame to, if any: a requested extent that differs
/// from the frame's current one.
pub fn resize_target(requested: Option<FrameExtent>, width: u32, height: u32) -> (target: Option<FrameExtent>)
    ensures
        target == spec_resize_target(requested, width, height),
{
    match requested {
        Some(extent) => if extent.width != width || extent.height != height {
            Some(extent)
        } else {
            None
        },
        None => None,
    }
}

/// End a frame's pointer pass: the drag to keep for the next frame, and the
/// extent to resize the frame to, if the drag asked for a different one.
pub fn finish_pointer_pass(pass: PointerPass, width: u32, height: u32) -> (outcome: (
    Option<ResizeDrag>,
    Option<FrameExtent>,
))
    ensures
        outcome.0 == pass.drag,
        outcome.1 == spec_resize_target(pass.live_extent, width, height),
{
    (pass.drag, resize_target(pass.live_extent, width, height))
}

/// The last extent of a run of UI4 maximize/restore events: only the newest one
/// counts.
pub fn coalesce_resize_events(events: &Vec<FrameExtent>) -> (requested: Option<FrameExtent>)
    ensures
        events@.len() == 0 ==> requested is None,
        events@.len() > 0 ==> requested == Some(events@.last()),
{
    let mut requested: Option<FrameExtent> = None;
    let mut i: usize = 0;
    while i < events.len()
        invariant
            i <= events@.len(),
            i == 0 ==> requested is None,
            i > 0 ==> requested == Some(events@[i - 1]),
        decreases events.len() - i,
    {
        requested = Some(events[i]);
        i = i + 1;
    }
    requested
}

/// Turns the monotonic elapsed time since start into per-frame steps.
#[derive(Clone, Copy, Debug, PartialEq, Eq, Structural)]
pub struct FrameClock {
    pub previous_elapsed_millis: u64,
}

/// The step from `previous` to `elapsed`, zero if time seems to run backwards.
pub open spec fn spec_frame_delta(previous: u64, elapsed: u64) -> u64 {
    if elapsed >= previous {
        (elapsed - previous) as u64
    } else {
        0
    }
}

impl FrameClock {
    /// A clock that starts at elapsed time zero.
    pub fn new() -> (clock: FrameClock)
        ensures
            clock.previous_elapsed_millis == 0,
    {
        FrameClock { previous_elapsed_millis: 0 }
    }

    /// Advance to `elapsed_millis` and return the milliseconds since the
    /// previous frame.
    pub fn advance(&mut self, elapsed_millis: u64) -> (delta_millis: u64)
        ensures
            delta_millis == spec_frame_delta(old(self).previous_elapsed_millis, elapsed_millis),
            final(self).previous_elapsed_millis == elapsed_millis,
    {
        let delta = elapsed_millis.saturating_sub(self.previous_elapsed_millis);
        self.previous_elapsed_millis = elapsed_millis;
        delta
    }
}

/// A live resize never leaves its bounds: whatever extent a sample's drag asks
/// for is at least the minimum extent and at most the output extent.
pub proof fn lemma_live_extent_bounded(
    pass: PointerPass,
    frame_width: u32,
    frame_height: u32,
    output_width: u32,
    output_height: u32,
    event: PointerSample,
)
    requires
        pointer_step_defined(pass, frame_width, frame_height, output_width, output_height, event),
        spec_moves_drag(pass.drag, frame_width, frame_height, event),
    ensures
        ({
            let next = spec_pointer_step(pass, frame_width, frame_height, output_width, output_height, event);
            &&& next.live_extent is Some
            &&& MIN_WIDTH <= next.live_extent->Some_0.width <= output_width
            &&& MIN_HEIGHT <= next.live_extent->Some_0.height <= output_height
        }),
{
}

/// A drag belongs to its source: a sample from any other source that does not
/// press inside the grip changes neither the drag nor the frame's live extent.
pub proof fn lemma_foreign_sample_ignored(
    pass: PointerPass,
    frame_width: u32,
    frame_height: u32,
    output_width: u32,
    output_height: u32,
    event: PointerSample,
)
    requires
        !(event.primary_pressed && spec_in_grip(frame_width, frame_height, event.local_x, event.local_y)),
        pass.drag matches Some(active) ==> active.source != event.source,
    ensures
        spec_pointer_step(pass, frame_width, frame_height, output_width, output_height, event) == pass,
{
}

/// Letting go ends the drag: a sample of the drag's own source that releases the
/// primary button, or no longer holds it, leaves no drag behind, while its
/// position still sets the extent.
pub proof fn lemma_release_ends_drag(
    pass: PointerPass,
    frame_width: u32,
    frame_height: u32,
    output_width: u32,
    output_height: u32,
    event: PointerSample,
)
    requires
        spec_moves_drag(pass.drag, frame_width, frame_height, event),
        event.primary_released || !event.primary_down,
    ensures
        ({
            let next = spec_pointer_step(pass, frame_width, frame_height, output_width, output_height, event);
            &&& next.drag is None
            &&& next.live_extent is Some
        }),
{
}

/// A primary press inside the grip grabs the frame: the sample's source owns a
/// new drag anchored at the sample, and, while the button stays down, the frame
/// keeps its extent (once within bounds).
pub proof fn lemma_press_in_grip_grabs(
    pass: PointerPass,
    frame_width: u32,
    frame_height: u32,
    output_width: u32,
    output_height: u32,
    event: PointerSample,
)
    requires
        pointer_step_defined(pass, frame_width, frame_height, output_width, output_height, event),
        event.primary_pressed,
        event.primary_down,
        !event.primary_released,
        spec_in_grip(frame_width, frame_height, event.local_x, event.local_y),
        MIN_WIDTH <= frame_width <= output_width,
        MIN_HEIGHT <= frame_height <= output_height,
    ensures
        ({
            let next = spec_pointer_step(pass, frame_width, frame_height, output_width, output_height, event);
            &&& next.drag == Some(
                ResizeDrag {
                    source: event.source,
                    anchor_x: event.x,
                    anchor_y: event.y,
                    width: frame_width,
                    height: frame_height,
                },
            )
            &&& next.live_extent == Some(FrameExtent { width: frame_width, height: frame_height })
        }),
{
}

/// Moving the pointer back to where the drag grabbed the frame undoes the
/// drag's resizing: the extent asked for is the extent grabbed (once within
/// bounds), wherever the pointer went before.
pub proof fn lemma_return_to_anchor_restores_extent(
    active: ResizeDrag,
    output_width: u32,
    output_height: u32,
)
    requires
        MIN_WIDTH <= active.width <= output_width,
        MIN_HEIGHT <= active.height <= output_height,
    ensures
        spec_drag_extent(active, active.anchor_x, active.anchor_y, output_width, output_height)
            == (FrameExtent { width: active.width, height: active.height }),
{
}

/// The cursor shows the resize shape exactly inside the grip or for the source
/// that owns the drag.
pub proof fn lemma_cursor_icon_shape(
    drag: Option<ResizeDrag>,
    frame_width: u32,
    frame_height: u32,
    event: PointerSample,
)
    ensures
        (spec_cursor_icon(drag, frame_width, frame_height, event) == CursorIcon::ResizeDiagonal) <==> (
        spec_in_grip(frame_width, frame_height, event.local_x, event.local_y) || (drag matches Some(
            active,
        ) && active.source == event.source)),
{
}

/// Total time a clock that starts at `start` accumulates over the elapsed
/// readings `readings`, frame after frame.
pub open spec fn spec_total_delta(start: u64, readings: Seq<u64>) -> int
    decreases readings.len(),
{
    if readings.len() == 0 {
        0
    } else {
        spec_total_delta(start, readings.drop_last()) + spec_frame_delta(
            if readings.len() == 1 {
                start
            } else {
                readings[readings.len() - 2]
            },
            readings.last(),
        )
    }
}

/// Over monotonic readings, the frame steps add up to the time between the
/// clock's start and the last reading: no time is lost or counted twice.
pub proof fn lemma_frame_deltas_telescope(start: u64, readings: Seq<u64>)
    requires
        readings.len() > 0,
        start <= readings[0],
        forall|i: int, j: int| 0 <= i <= j < readings.len() ==> readings[i] <= readings[j],
    ensures
        spec_total_delta(start, readings) == readings.last() - start,
    decreases readings.len(),
{
    if readings.len() > 1 {
        let prefix = readings.drop_last();
        assert forall|i: int, j: int| 0 <= i <= j < prefix.len() implies prefix[i] <= prefix[j] by {
            assert(prefix[i] == readings[i] && prefix[j] == readings[j]);
        }
        assert(prefix[0] == readings[0]);
        assert(prefix.last() == readings[readings.len() - 2]);
        lemma_frame_deltas_telescope(start, prefix);
        assert(readings[readings.len() - 2] <= readings.last());
        assert(spec_total_delta(start, readings) == spec_total_delta(start, prefix) + spec_frame_delta(
            readings[readings.len() - 2],
            readings.last(),
        ));
    } else {
        assert(readings.drop_last().len() == 0);
        assert(spec_total_delta(start, readings.drop_last()) == 0);
        assert(readings.last() == readings[0]);
    }
}

/// The extent a moving drag asks for depends only on the drag as grabbed and
/// the pointer's output position: for a sample of the drag's own source that
/// does not press, the new live extent is the grabbed width plus the pointer's
/// horizontal travel since the anchor, limited to at least 160 and at most the
/// output width (and likewise for the height, between 90 and the output
/// height), whatever the frame's current extent is.
pub proof fn lemma_live_extent_follows_travel(
    pass: PointerPass,
    frame_width: u32,
    frame_height: u32,
    output_width: u32,
    output_height: u32,
    event: PointerSample,
)
    requires
        pass.drag is Some,
        pass.drag->Some_0.source == event.source,
        !event.primary_pressed,
    ensures
        ({
            let active = pass.drag->Some_0;
            let w = active.width + event.x - active.anchor_x;
            let h = active.height + event.y - active.anchor_y;
            let next = spec_pointer_step(pass, frame_width, frame_height, output_width, output_height, event);
            &&& next.live_extent is Some
            &&& next.live_extent->Some_0.width as int == (if w < 160 {
                160
            } else if w > output_width {
                output_width as int
            } else {
                w
            })
            &&& next.live_extent->Some_0.height as int == (if h < 90 {
                90
            } else if h > output_height {
                output_height as int
            } else {
                h
            })
        }),
{
}

/// Two frames that differ only in their current extent get the same live
/// extent from the same sample: the frame's size never feeds back into the drag
/// unless the sample grabs the frame anew.
pub proof fn lemma_live_extent_ignores_frame_extent(
    pass: PointerPass,
    width_a: u32,
    height_a: u32,
    width_b: u32,
    height_b: u32,
    output_width: u32,
    output_height: u32,
    event: PointerSample,
)
    requires
        !event.primary_pressed,
    ensures
        spec_pointer_step(pass, width_a, height_a, output_width, output_height, event).live_extent
            == spec_pointer_step(pass, width_b, height_b, output_width, output_height, event).live_extent,
        spec_pointer_step(pass, width_a, height_a, output_width, output_height, event).drag
            == spec_pointer_step(pass, width_b, height_b, output_width, output_height, event).drag,
{
}

/// A requested extent is the resize target exactly when it differs from the
/// current extent in width or in height; no request, no resize.
pub proof fn lemma_resize_target_on_any_difference(requested: Option<FrameExtent>, width: u32, height: u32)
    ensures
        requested is None ==> spec_resize_target(requested, width, height) is None,
        requested matches Some(e) && (e.width != width || e.height != height) ==> spec_resize_target(
            requested,
            width,
            height,
        ) == requested,
        requested matches Some(e) && e.width == width && e.height == height ==> spec_resize_target(
            requested,
            width,
            height,
        ) is None,
{
}

} // verus!
