use picasso_example::probe::{FrameStep, ProbeState};
use picasso_example::interaction::{step_is_defined, PointerPass};
use picasso_example::interaction::{
    begin_pointer_pass, coalesce_resize_events, finish_pointer_pass,
    in_grip, pointer_step, resize_target, CursorIcon, CursorSource, FrameClock, FrameExtent,
    PointerSample, ResizeDrag,
};

fn sample(source: u64, local: (i32, i32), at: (u32, u32), pressed: bool, released: bool, down: bool) -> PointerSample {
    PointerSample {
        source: CursorSource(source),
        local_x: local.0,
        local_y: local.1,
        x: at.0,
        y: at.1,
        primary_pressed: pressed,
        primary_released: released,
        primary_down: down,
    }
}

#[test]
fn grip_is_the_bottom_right_sixteen_pixels() {
    assert!(in_grip(640, 360, 639, 359));
    assert!(in_grip(640, 360, 624, 344));
    assert!(!in_grip(640, 360, 623, 359));
    assert!(!in_grip(640, 360, 639, 343));
    assert!(!in_grip(640, 360, 640, 359));
    assert!(!in_grip(640, 360, 639, 360));
    assert!(!in_grip(640, 360, -1, -1));
}

#[test]
fn press_in_grip_then_drag_resizes_within_output() {
    let mut pass = begin_pointer_pass(None);
    // Press in the grip: a drag starts, the frame keeps its extent.
    let icon = pointer_step(&mut pass, 640, 360, 1920, 1080, sample(1, (630, 350), (750, 446), true, false, true));
    assert_eq!(icon, CursorIcon::ResizeDiagonal);
    assert_eq!(
        pass.drag,
        Some(ResizeDrag { source: CursorSource(1), anchor_x: 750, anchor_y: 446, width: 640, height: 360 })
    );
    assert_eq!(pass.live_extent, Some(FrameExtent { width: 640, height: 360 }));
    // Move by (+100, +40), outside the grip, still owned.
    let icon = pointer_step(&mut pass, 640, 360, 1920, 1080, sample(1, (740, 390), (850, 486), false, false, true));
    assert_eq!(icon, CursorIcon::ResizeDiagonal);
    assert_eq!(pass.live_extent, Some(FrameExtent { width: 740, height: 400 }));
    // Far beyond the output: clamped to the output extent.
    pointer_step(&mut pass, 640, 360, 1920, 1080, sample(1, (5000, 5000), (5000, 5000), false, false, true));
    assert_eq!(pass.live_extent, Some(FrameExtent { width: 1920, height: 1080 }));
    // Far to the upper left: clamped to the minimum extent.
    pointer_step(&mut pass, 640, 360, 1920, 1080, sample(1, (0, 0), (0, 0), false, false, true));
    assert_eq!(pass.live_extent, Some(FrameExtent { width: 160, height: 90 }));
    // Release back at the anchor: the drag ends, the grabbed extent returns.
    pointer_step(&mut pass, 640, 360, 1920, 1080, sample(1, (630, 350), (750, 446), false, true, false));
    assert_eq!(pass.drag, None);
    assert_eq!(pass.live_extent, Some(FrameExtent { width: 640, height: 360 }));
    let (drag, target) = finish_pointer_pass(pass, 640, 360);
    assert_eq!(drag, None);
    assert_eq!(target, None);
}

#[test]
fn other_sources_do_not_move_a_drag() {
    let active = ResizeDrag { source: CursorSource(1), anchor_x: 10, anchor_y: 10, width: 300, height: 200 };
    let mut pass = begin_pointer_pass(Some(active));
    let icon = pointer_step(&mut pass, 300, 200, 1920, 1080, sample(2, (5, 5), (400, 400), false, false, true));
    assert_eq!(icon, CursorIcon::Default);
    assert_eq!(pass.drag, Some(active));
    assert_eq!(pass.live_extent, None);
    // The owning source without the button held: one last extent, then the drag ends.
    let icon = pointer_step(&mut pass, 300, 200, 1920, 1080, sample(1, (5, 5), (20, 30), false, false, false));
    assert_eq!(icon, CursorIcon::ResizeDiagonal);
    assert_eq!(pass.drag, None);
    assert_eq!(pass.live_extent, Some(FrameExtent { width: 310, height: 220 }));
    let (drag, target) = finish_pointer_pass(pass, 300, 200);
    assert_eq!(drag, None);
    assert_eq!(target, Some(FrameExtent { width: 310, height: 220 }));
}

#[test]
fn hover_without_drag_only_sets_the_cursor() {
    let mut pass = begin_pointer_pass(None);
    assert_eq!(
        pointer_step(&mut pass, 640, 360, 50, 50, sample(3, (635, 355), (1, 1), false, false, false)),
        CursorIcon::ResizeDiagonal
    );
    assert_eq!(
        pointer_step(&mut pass, 640, 360, 50, 50, sample(3, (10, 10), (1, 1), false, false, false)),
        CursorIcon::Default
    );
    assert_eq!(pass.drag, None);
    assert_eq!(pass.live_extent, None);
}

#[test]
fn maximize_events_coalesce_to_the_newest() {
    assert_eq!(coalesce_resize_events(&vec![]), None);
    let events = vec![FrameExtent { width: 1920, height: 1080 }, FrameExtent { width: 640, height: 360 }];
    let requested = coalesce_resize_events(&events);
    assert_eq!(requested, Some(FrameExtent { width: 640, height: 360 }));
    assert_eq!(resize_target(requested, 640, 360), None);
    assert_eq!(resize_target(requested, 641, 360), Some(FrameExtent { width: 640, height: 360 }));
    assert_eq!(resize_target(None, 641, 360), None);
}

#[test]
fn camera_holds_still_while_resizing() {
    let mut state = ProbeState::new();
    assert_eq!(state.timeline(), 0);
    let step = state.advance(16);
    assert_eq!(step, FrameStep { delta_millis: 16, rotation_follows_input: true });
    let drag = ResizeDrag { source: CursorSource(1), anchor_x: 0, anchor_y: 0, width: 160, height: 90 };
    state.keep_drag(Some(drag));
    assert_eq!(state.pointer_pass().drag, Some(drag));
    let step = state.advance(48);
    assert_eq!(step, FrameStep { delta_millis: 32, rotation_follows_input: false });
    state.retired(17);
    assert_eq!(state.timeline(), 17);
    state.keep_drag(None);
    assert!(state.advance(48).rotation_follows_input);
}

#[test]
fn frame_clock_steps() {
    let mut clock = FrameClock::new();
    assert_eq!(clock.advance(16), 16);
    assert_eq!(clock.advance(40), 24);
    assert_eq!(clock.previous_elapsed_millis, 40);
    // Backwards time gives an empty step and resets the reference.
    assert_eq!(clock.advance(30), 0);
    assert_eq!(clock.advance(31), 1);
    let mut total = 0;
    let mut clock = FrameClock::new();
    for t in [3u64, 3, 17, 100, 1000] {
        total += clock.advance(t);
    }
    assert_eq!(total, 1000);
}

#[test]
fn step_definedness_follows_the_clamp() {
    let idle = PointerPass { drag: None, live_extent: None };
    let hover = sample(1, (10, 10), (10, 10), false, false, false);
    // Without a drag nothing is clamped: any output extent will do.
    assert!(step_is_defined(&idle, 640, 360, 100, 50, &hover));
    // A press in the grip starts a drag that is clamped at once.
    let press = sample(1, (639, 359), (10, 10), true, false, true);
    assert!(!step_is_defined(&idle, 640, 360, 100, 50, &press));
    assert!(step_is_defined(&idle, 640, 360, 160, 90, &press));
    // Grip edges that cannot be formed as i32.
    assert!(!step_is_defined(&idle, 0x8000_0000, 360, 1920, 1080, &hover));
    assert!(step_is_defined(&idle, 0x8000_0010, 360, 1920, 1080, &hover));
}
