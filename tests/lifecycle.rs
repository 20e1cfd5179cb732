use anodium_shell::geometry::{Point, ResizeEdge, Size};
use anodium_shell::lifecycle::{LifecycleError, ResizeState, ShellKind};

fn begun() -> ResizeState {
    let mut s = ResizeState::Idle;
    assert_eq!(s.begin(ResizeEdge::from_bits(10), Point { x: 1, y: 2 }, Size { w: 3, h: 4 }), Ok(()));
    s
}

#[test]
fn round_trip_xdg() {
    let mut s = begun();
    assert_eq!(s.end_from_drag(ShellKind::Xdg, Size { w: 30, h: 40 }, Some(9)), Ok(()));
    assert!(matches!(s, ResizeState::WaitingForFinalAck(_, Size { w: 30, h: 40 }, 9)));
    assert_eq!(s.on_surface_committed(), Ok(Size { w: 30, h: 40 }));
    assert_eq!(s, ResizeState::Idle);
}

#[test]
fn round_trip_legacy() {
    let mut s = begun();
    assert_eq!(s.end_from_drag(ShellKind::X11, Size { w: 30, h: 40 }, Some(9)), Ok(()));
    assert!(matches!(s, ResizeState::WaitingForCommit(_, Size { w: 30, h: 40 })));
    assert_eq!(s.on_surface_committed(), Ok(Size { w: 30, h: 40 }));
    assert_eq!(s, ResizeState::Idle);
}

#[test]
fn xdg_without_serial_waits_for_commit() {
    let mut s = begun();
    assert_eq!(s.end_from_drag(ShellKind::Xdg, Size { w: 30, h: 40 }, None), Ok(()));
    assert!(matches!(s, ResizeState::WaitingForCommit(_, _)));
}

#[test]
fn commit_refused_when_idle_or_resizing() {
    let mut idle = ResizeState::Idle;
    assert_eq!(idle.on_surface_committed(), Err(LifecycleError::InvalidResizeState(ResizeState::Idle)));
    assert_eq!(idle, ResizeState::Idle);
    let mut resizing = begun();
    let before = resizing;
    assert_eq!(resizing.on_surface_committed(), Err(LifecycleError::InvalidResizeState(before)));
    assert_eq!(resizing, before);
}

#[test]
fn begin_refused_unless_idle() {
    let mut s = begun();
    let before = s;
    assert_eq!(
        s.begin(ResizeEdge::from_bits(1), Point { x: 0, y: 0 }, Size { w: 1, h: 1 }),
        Err(LifecycleError::InvalidResizeState(before))
    );
    assert_eq!(s, before);
}

#[test]
fn end_refused_unless_resizing() {
    let mut s = ResizeState::Idle;
    assert_eq!(
        s.end_from_drag(ShellKind::Xdg, Size { w: 1, h: 1 }, Some(1)),
        Err(LifecycleError::InvalidResizeState(ResizeState::Idle))
    );
}

#[test]
fn cancel_returns_to_idle() {
    let mut s = begun();
    s.cancel();
    assert!(s.is_idle());
    assert!(!s.is_resizing());
    assert!(!s.is_waiting_for_commit());
}
