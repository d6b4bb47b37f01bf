//! The plain state of the live geometry probe between frames: the frame clock,
//! the resize drag that survives from one frame to the next, and the vGPU
//! timeline point of the last retired frame.
use vstd::prelude::*;
use crate::interaction::{spec_frame_delta, FrameClock, PointerPass, ResizeDrag};

verus! {

/// What a frame step hands to the camera: the time since the previous frame,
/// and whether the camera may rotate from this frame's input.
#[derive(Clone, Copy, Debug, PartialEq, Eq, Structural)]
pub struct FrameStep {
    pub delta_millis: u64,
    pub rotation_follows_input: bool,
}

/// State of the geometry probe that outlives a frame.
#[derive(Clone, Copy, Debug, PartialEq, Eq, Structural)]
pub struct ProbeState {
    pub clock: FrameClock,
    pub resize_drag: Option<ResizeDrag>,
    pub timeline: u64,
}

impl ProbeState {
    /// The state right after opening: time zero, no drag, no retired frame.
    pub fn new() -> (state: ProbeState)
        ensures
            state.clock.previous_elapsed_millis == 0,
            state.resize_drag is None,
            state.timeline == 0,
    {
        ProbeState { clock: FrameClock { previous_elapsed_millis: 0 }, resize_drag: None, timeline: 0 }
    }

    /// The timeline point of the last retired frame.
    pub fn timeline(&self) -> (point: u64)
        ensures
            point == self.timeline,
    {
        self.timeline
    }

    /// The pointer pass of a new frame, continuing the kept drag.
    pub fn pointer_pass(&self) -> (pass: PointerPass)
        ensures
            pass == (PointerPass { drag: self.resize_drag, live_extent: None }),
    {
        PointerPass { drag: self.resize_drag, live_extent: None }
    }

    /// Keep the drag a finished pointer pass ended with.
    pub fn keep_drag(&mut self, drag: Option<ResizeDrag>)
        ensures
            final(self).resize_drag == drag,
            final(self).clock == old(self).clock,
            final(self).timeline == old(self).timeline,
    {
        self.resize_drag = drag;
    }

    /// Advance to `elapsed_millis` after the frame's input was serviced: the
    /// step since the previous frame, and whether the camera may rotate (not
    /// while a resize drag owns the pointer).
    pub fn advance(&mut self, elapsed_millis: u64) -> (step: FrameStep)
        ensures
            step.delta_millis == spec_frame_delta(old(self).clock.previous_elapsed_millis, elapsed_millis),
            step.rotation_follows_input == (old(self).resize_drag is None),
            final(self).clock.previous_elapsed_millis == elapsed_millis,
            final(self).resize_drag == old(self).resize_drag,
            final(self).timeline == old(self).timeline,
    {
        let delta_millis = self.clock.advance(elapsed_millis);
        FrameStep { delta_millis, rotation_follows_input: self.resize_drag.is_none() }
    }

    /// Record the timeline point at which the frame retired.
    pub fn retired(&mut self, point: u64)
        ensures
            final(self).timeline == point,
            final(self).clock == old(self).clock,
            final(self).resize_drag == old(self).resize_drag,
    {
        self.timeline = point;
    }
}

} // verus!
