//! What each retained head does over time: its quadrant, how it spins, whether
//! its scale pulses, and the flags that name its transform state. The angles
//! and scales themselves are computed in floating point by the caller from
//! these decisions.
use vstd::prelude::*;
use crate::bytes::{rgba8, spec_rgba8};
use crate::draws::LINE_COUNT;
use crate::geometry::HEAD_INSTANCE_COUNT;

verus! {

/// Quadrant of the view a head is placed in.
#[derive(Clone, Copy, Debug, PartialEq, Eq, Structural)]
pub enum Quadrant {
    TopLeft,
    TopRight,
    BottomLeft,
    BottomRight,
}

/// Rotation of a head about the view axis.
#[derive(Clone, Copy, Debug, PartialEq, Eq, Structural)]
pub enum Spin {
    Clockwise,
    CounterClockwise,
    Still,
}

/// The fixed behaviour of one head.
#[derive(Clone, Copy, Debug, PartialEq, Eq, Structural)]
pub struct SeedPlan {
    pub quadrant: Quadrant,
    pub spin: Spin,
    /// The head's scale collapses to zero and returns, once per second.
    pub pulses: bool,
    /// Seed flags: the head's transform slot in bits 16 and up.
    pub flags: u32,
}

/// Behaviour of head `slot`: top-left spins clockwise, top-right spins
/// counter-clockwise, bottom-left pulses, bottom-right stays unchanged.
pub open spec fn spec_seed_plan(slot: int) -> SeedPlan {
    SeedPlan {
        quadrant: if slot == 0 {
            Quadrant::TopLeft
        } else if slot == 1 {
            Quadrant::TopRight
        } else if slot == 2 {
            Quadrant::BottomLeft
        } else {
            Quadrant::BottomRight
        },
        spin: if slot == 0 {
            Spin::Clockwise
        } else if slot == 1 {
            Spin::CounterClockwise
        } else {
            Spin::Still
        },
        pulses: slot == 2,
        flags: (slot * 0x1_0000) as u32,
    }
}

/// The behaviour of head `slot`.
pub fn seed_plan(slot: u32) -> (plan: SeedPlan)
    requires
        slot < HEAD_INSTANCE_COUNT,
    ensures
        plan == spec_seed_plan(slot as int),
{
    let quadrant = if slot == 0 {
        Quadrant::TopLeft
    } else if slot == 1 {
        Quadrant::TopRight
    } else if slot == 2 {
        Quadrant::BottomLeft
    } else {
        Quadrant::BottomRight
    };
    let spin = if slot == 0 {
        Spin::Clockwise
    } else if slot == 1 {
        Spin::CounterClockwise
    } else {
        Spin::Still
    };
    assert((slot << 16) == slot * 0x1_0000) by (bit_vector)
        requires
            slot < 4,
    ;
    SeedPlan { quadrant, spin, pulses: slot == 2, flags: slot << 16 }
}

/// Milliseconds between the current point of the one-second pulse cycle and its
/// midpoint: 500 at the start of each second (full scale), 0 half a second in
/// (collapsed). The pulsing head's scale is proportional to it.
pub open spec fn spec_pulse_distance_millis(elapsed_millis: u64) -> u64 {
    let half_cycle = elapsed_millis % 1000;
    if half_cycle >= 500 {
        (half_cycle - 500) as u64
    } else {
        (500 - half_cycle) as u64
    }
}

/// The pulse distance at `elapsed_millis` since start.
pub fn pulse_distance_millis(elapsed_millis: u64) -> (distance: u64)
    ensures
        distance == spec_pulse_distance_millis(elapsed_millis),
        distance <= 500,
{
    let half_cycle = elapsed_millis % 1000;
    if half_cycle >= 500 {
        half_cycle - 500
    } else {
        500 - half_cycle
    }
}

/// The pulse repeats every second, is at full scale at each whole second, and
/// is collapsed half a second later.
pub proof fn lemma_pulse_cycle(elapsed_millis: u64, seconds: u64)
    requires
        elapsed_millis + 1000 <= u64::MAX,
        seconds * 1000 + 500 <= u64::MAX,
    ensures
        spec_pulse_distance_millis((elapsed_millis + 1000) as u64) == spec_pulse_distance_millis(
            elapsed_millis,
        ),
        spec_pulse_distance_millis((seconds * 1000) as u64) == 500,
        spec_pulse_distance_millis((seconds * 1000 + 500) as u64) == 0,
{
    assert((elapsed_millis + 1000) % 1000 == elapsed_millis % 1000) by (nonlinear_arith);
    assert((seconds * 1000) % 1000 == 0) by (nonlinear_arith);
    assert((seconds * 1000 + 500) % 1000 == 500) by (nonlinear_arith);
}

/// The fixed parts of one retained frame submission.
#[derive(Clone, Copy, Debug, PartialEq, Eq, Structural)]
pub struct RetainedFramePlan {
    pub clear_rgba8_srgb: u32,
    pub seed_count: u32,
    pub static_draw_count: u32,
}

/// The retained frame: a dark blue clear, one seed per head, and the three
/// static reference lines.
pub fn retained_frame_plan() -> (plan: RetainedFramePlan)
    ensures
        plan == (RetainedFramePlan {
            clear_rgba8_srgb: spec_rgba8(15, 20, 38, 255),
            seed_count: HEAD_INSTANCE_COUNT,
            static_draw_count: LINE_COUNT,
        }),
{
    RetainedFramePlan {
        clear_rgba8_srgb: rgba8(15, 20, 38, 255),
        seed_count: HEAD_INSTANCE_COUNT,
        static_draw_count: LINE_COUNT,
    }
}

/// Every head has a different transform slot, quadrant and behaviour, and the
/// slot can be read back from its flags.
pub proof fn lemma_heads_distinct(s: int, t: int)
    requires
        0 <= s < HEAD_INSTANCE_COUNT,
        0 <= t < HEAD_INSTANCE_COUNT,
        s != t,
    ensures
        spec_seed_plan(s).flags != spec_seed_plan(t).flags,
        spec_seed_plan(s).quadrant != spec_seed_plan(t).quadrant,
        spec_seed_plan(s).flags / 0x1_0000 == s,
        spec_seed_plan(s).flags % 0x1_0000 == 0,
{
}

} // verus!
