use anodium_shell::geometry::{Point, PointerPos, ResizeEdge, Size};
use anodium_shell::lifecycle::{LifecycleError, ResizeState, ShellKind};
use anodium_shell::shell::{Configure, EventReply, Grab, GrabStartData, ShellEvent, State};

fn create(state: &mut State, kind: ShellKind) -> usize {
    let reply = state
        .handle_event(ShellEvent::WindowCreated {
            kind,
            size: Size { w: 200, h: 150 },
            min_size: Size { w: 50, h: 50 },
            max_size: Size { w: 0, h: 0 },
        })
        .unwrap();
    match reply {
        EventReply::Created { window, .. } => window,
        other => panic!("unexpected reply {:?}", other),
    }
}

fn start(x: i32, y: i32) -> GrabStartData {
    GrabStartData { button: 0x110, location: PointerPos::from_logical(x, y) }
}

fn begin_resize(state: &mut State, w: usize, edges: ResizeEdge) {
    let reply = state
        .handle_event(ShellEvent::WindowResize { window: w, start_data: start(10, 10), edges, serial: 7 })
        .unwrap();
    assert_eq!(reply, EventReply::GrabInstalled { serial: 7 });
}

#[test]
fn created_window_is_mapped_at_origin_and_active() {
    let mut state = State::new();
    let reply = state
        .handle_event(ShellEvent::WindowCreated {
            kind: ShellKind::Xdg,
            size: Size { w: 200, h: 150 },
            min_size: Size { w: 50, h: 50 },
            max_size: Size { w: 0, h: 0 },
        })
        .unwrap();
    assert_eq!(
        reply,
        EventReply::Created { window: 0, configure: Some(Configure { window: 0, resizing: false, size: None }) }
    );
    assert_eq!(state.window_location(0), Point { x: 0, y: 0 });
    assert_eq!(state.active, Some(0));
}

#[test]
fn resize_right_bottom_scenario() {
    let mut state = State::new();
    let w = create(&mut state, ShellKind::X11);
    state.pointer_button(0x110, true, 1);
    begin_resize(&mut state, w, ResizeEdge::from_bits(10));
    assert!(matches!(state.windows[w].resize_state, ResizeState::Resizing(_)));
    assert_eq!(state.pointer_motion(PointerPos::from_logical(60, 40)), None);
    match state.grab {
        Some(Grab::Resize(g)) => assert_eq!(g.last_window_size, Size { w: 250, h: 180 }),
        other => panic!("unexpected grab {:?}", other),
    }
    assert_eq!(state.windows[w].size, Size { w: 200, h: 150 });
    let (released, cfg) = state.pointer_button(0x110, false, 8);
    assert!(released);
    assert_eq!(cfg, None);
    assert!(matches!(state.windows[w].resize_state, ResizeState::WaitingForCommit(_, _)));
    let reply = state.handle_event(ShellEvent::SurfaceCommit { window: w }).unwrap();
    assert_eq!(reply, EventReply::SizeAdopted { window: w, size: Size { w: 250, h: 180 } });
    assert_eq!(state.windows[w].resize_state, ResizeState::Idle);
    assert_eq!(state.windows[w].size, Size { w: 250, h: 180 });
}

#[test]
fn resize_left_top_scenario() {
    let mut state = State::new();
    let w = create(&mut state, ShellKind::X11);
    state.pointer_button(0x110, true, 1);
    begin_resize(&mut state, w, ResizeEdge::from_bits(5));
    state.pointer_motion(PointerPos::from_logical(0, 0));
    match state.grab {
        Some(Grab::Resize(g)) => assert_eq!(g.last_window_size, Size { w: 210, h: 160 }),
        other => panic!("unexpected grab {:?}", other),
    }
}

#[test]
fn move_scenario() {
    let mut state = State::new();
    let w = create(&mut state, ShellKind::Xdg);
    state.map_window(w, Point { x: 100, y: 100 }, false);
    let reply = state
        .handle_event(ShellEvent::WindowMove { window: w, start_data: start(5, 5), serial: 3 })
        .unwrap();
    assert_eq!(reply, EventReply::GrabInstalled { serial: 3 });
    assert_eq!(state.pointer_motion(PointerPos::from_logical(5, 5)), None);
    assert_eq!(state.window_location(w), Point { x: 100, y: 100 });
    state.pointer_motion(PointerPos::from_logical(25, 5));
    assert_eq!(state.window_location(w), Point { x: 120, y: 100 });
}

#[test]
fn xdg_resize_waits_for_final_ack() {
    let mut state = State::new();
    let w = create(&mut state, ShellKind::Xdg);
    state.pointer_button(0x110, true, 1);
    begin_resize(&mut state, w, ResizeEdge::from_bits(10));
    let cfg = state.pointer_motion(PointerPos::from_logical(60, 40));
    assert_eq!(cfg, Some(Configure { window: w, resizing: true, size: Some(Size { w: 250, h: 180 }) }));
    let (released, cfg) = state.pointer_button(0x110, false, 42);
    assert!(released);
    assert_eq!(cfg, Some(Configure { window: w, resizing: false, size: Some(Size { w: 250, h: 180 }) }));
    assert!(matches!(
        state.windows[w].resize_state,
        ResizeState::WaitingForFinalAck(_, Size { w: 250, h: 180 }, 42)
    ));
    assert_eq!(state.grab, None);
    state.handle_event(ShellEvent::SurfaceCommit { window: w }).unwrap();
    assert_eq!(state.windows[w].resize_state, ResizeState::Idle);
    assert_eq!(state.windows[w].size, Size { w: 250, h: 180 });
}

#[test]
fn resize_while_waiting_is_refused() {
    let mut state = State::new();
    let w = create(&mut state, ShellKind::X11);
    state.pointer_button(0x110, true, 1);
    begin_resize(&mut state, w, ResizeEdge::from_bits(10));
    state.pointer_button(0x110, false, 1);
    let waiting = state.windows[w].resize_state;
    let r = state.handle_event(ShellEvent::WindowResize {
        window: w,
        start_data: start(0, 0),
        edges: ResizeEdge::from_bits(10),
        serial: 2,
    });
    assert_eq!(r, Err(LifecycleError::InvalidResizeState(waiting)));
    assert_eq!(state.grab, None);
}

#[test]
fn commit_without_resize_is_ignored() {
    let mut state = State::new();
    let w = create(&mut state, ShellKind::X11);
    assert_eq!(state.handle_event(ShellEvent::SurfaceCommit { window: w }), Ok(EventReply::Ignored));
    assert_eq!(state.windows[w].size, Size { w: 200, h: 150 });
}

#[test]
fn events_on_unknown_windows_are_ignored() {
    let mut state = State::new();
    assert_eq!(
        state.handle_event(ShellEvent::WindowMove { window: 3, start_data: start(0, 0), serial: 1 }),
        Ok(EventReply::Ignored)
    );
    assert_eq!(state.grab, None);
    assert_eq!(state.handle_event(ShellEvent::Other), Ok(EventReply::Ignored));
}

#[test]
fn window_got_resized_relocates_passively() {
    let mut state = State::new();
    let a = create(&mut state, ShellKind::Xdg);
    let b = create(&mut state, ShellKind::Xdg);
    state
        .handle_event(ShellEvent::WindowGotResized { window: a, new_location: Point { x: -4, y: 9 } })
        .unwrap();
    assert_eq!(state.window_location(a), Point { x: -4, y: 9 });
    assert_eq!(state.active, Some(b));
}

#[test]
fn mapping_twice_keeps_latest_location() {
    let mut state = State::new();
    let w = create(&mut state, ShellKind::Xdg);
    state.map_window(w, Point { x: 10, y: 20 }, false);
    state.map_window(w, Point { x: 30, y: 40 }, false);
    assert_eq!(state.windows.len(), 1);
    assert_eq!(state.window_location(w), Point { x: 30, y: 40 });
}

#[test]
fn unmapped_window_location_defaults_to_origin() {
    let mut state = State::new();
    let w = create(&mut state, ShellKind::Xdg);
    state.map_window(w, Point { x: 10, y: 20 }, false);
    state.destroy_window(w);
    assert_eq!(state.window_location(w), Point { x: 0, y: 0 });
    assert_eq!(state.window_location(99), Point { x: 0, y: 0 });
    assert_eq!(state.active, None);
}

fn release_both(a_first: bool) {
    let mut state = State::new();
    let w = create(&mut state, ShellKind::Xdg);
    state.handle_event(ShellEvent::WindowMove { window: w, start_data: start(0, 0), serial: 1 }).unwrap();
    let mut releases = 0;
    for (button, pressed) in [(1u32, true), (2u32, true)] {
        if state.pointer_button(button, pressed, 5).0 {
            releases += 1;
        }
    }
    let order = if a_first { [1u32, 2u32] } else { [2u32, 1u32] };
    for button in order {
        if state.pointer_button(button, false, 6).0 {
            releases += 1;
        }
    }
    assert!(state.pressed.is_empty());
    assert_eq!(state.grab, None);
    assert_eq!(releases, 1);
}

#[test]
fn releasing_a_then_b_releases_grab_once() {
    release_both(true);
}

#[test]
fn releasing_b_then_a_releases_grab_once() {
    release_both(false);
}

#[test]
fn destroying_window_mid_resize_returns_to_idle() {
    let mut state = State::new();
    let w = create(&mut state, ShellKind::Xdg);
    state.pointer_button(0x110, true, 1);
    begin_resize(&mut state, w, ResizeEdge::from_bits(10));
    state.destroy_window(w);
    assert_eq!(state.grab, None);
    assert_eq!(state.windows[w].resize_state, ResizeState::Idle);
    assert!(!state.windows[w].alive);
    assert_eq!(state.pointer_motion(PointerPos::from_logical(60, 40)), None);
}

#[test]
fn new_grab_cancels_previous_resize() {
    let mut state = State::new();
    let a = create(&mut state, ShellKind::Xdg);
    let b = create(&mut state, ShellKind::Xdg);
    state.pointer_button(0x110, true, 1);
    begin_resize(&mut state, a, ResizeEdge::from_bits(10));
    state.handle_event(ShellEvent::WindowMove { window: b, start_data: start(0, 0), serial: 9 }).unwrap();
    assert_eq!(state.windows[a].resize_state, ResizeState::Idle);
    assert!(matches!(state.grab, Some(Grab::Move(_))));
    assert_eq!(state.grab.unwrap().window(), b);
    assert_eq!(state.grab.unwrap().start_data().location, PointerPos::from_logical(0, 0));
}

#[test]
fn unset_grab_returns_resize_to_idle() {
    let mut state = State::new();
    let w = create(&mut state, ShellKind::X11);
    state.pointer_button(0x110, true, 1);
    begin_resize(&mut state, w, ResizeEdge::from_bits(10));
    state.unset_grab();
    assert_eq!(state.grab, None);
    assert_eq!(state.windows[w].resize_state, ResizeState::Idle);
}
