use vstd::prelude::*;
use crate::geometry::{
    displacement, move_location, moved_axis, solve_size, solve_spec, Point, PointerPos, ResizeEdge, Size,
};
use crate::lifecycle::{LifecycleError, ResizeData, ResizeState, ShellKind};

verus! {

/// One top-level window known to the shell, addressed by its index in
/// [`State::windows`].
#[derive(Clone, Copy, Debug, PartialEq, Eq, Structural)]
pub struct Window {
    pub kind: ShellKind,
    /// The authoritative size, updated when a resize is committed.
    pub size: Size,
    /// Client-declared minimum size; zero on an axis means no minimum.
    pub min_size: Size,
    /// Client-declared maximum size; zero on an axis means unbounded.
    pub max_size: Size,
    /// Where the window is mapped in the space, or `None` when unmapped.
    pub location: Option<Point>,
    pub resize_state: ResizeState,
    /// False once the window's surface has been destroyed.
    pub alive: bool,
}

/// The pointer context a drag started from.
#[derive(Clone, Copy, Debug, PartialEq, Eq, Structural)]
pub struct GrabStartData {
    pub button: u32,
    pub location: PointerPos,
}

/// A drag that moves a window.
#[derive(Clone, Copy, Debug, PartialEq, Eq, Structural)]
pub struct MoveSurfaceGrab {
    pub start_data: GrabStartData,
    pub window: usize,
    pub initial_window_location: Point,
}

/// A drag that resizes a window.
#[derive(Clone, Copy, Debug, PartialEq, Eq, Structural)]
pub struct ResizeSurfaceGrab {
    pub start_data: GrabStartData,
    pub window: usize,
    pub edges: ResizeEdge,
    pub initial_window_size: Size,
    pub last_window_size: Size,
}

/// The grab session installed on the pointer.
#[derive(Clone, Copy, Debug, PartialEq, Eq, Structural)]
pub enum Grab {
    Move(MoveSurfaceGrab),
    Resize(ResizeSurfaceGrab),
}

/// A configure to send to an xdg window.
#[derive(Clone, Copy, Debug, PartialEq, Eq, Structural)]
pub struct Configure {
    pub window: usize,
    /// Whether the "resizing" state flag is set.
    pub resizing: bool,
    pub size: Option<Size>,
}

/// A discrete lifecycle event from the protocol engine.
#[derive(Clone, Copy, Debug, PartialEq, Eq, Structural)]
pub enum ShellEvent {
    WindowCreated { kind: ShellKind, size: Size, min_size: Size, max_size: Size },
    WindowMove { window: usize, start_data: GrabStartData, serial: u32 },
    WindowResize { window: usize, start_data: GrabStartData, edges: ResizeEdge, serial: u32 },
    SurfaceCommit { window: usize },
    WindowGotResized { window: usize, new_location: Point },
    Other,
}

/// What handling an event produced for the caller to carry out.
#[derive(Clone, Copy, Debug, PartialEq, Eq, Structural)]
pub enum EventReply {
    /// Nothing to do.
    Ignored,
    /// A window was created under this index; send it the configure, if any.
    Created { window: usize, configure: Option<Configure> },
    /// A grab was installed; install it on the pointer under this serial.
    GrabInstalled { serial: u32 },
    /// A commit settled a resize and the window adopted this size.
    SizeAdopted { window: usize, size: Size },
}

impl Grab {
    pub open spec fn target(self) -> usize {
        match self {
            Grab::Move(g) => g.window,
            Grab::Resize(g) => g.window,
        }
    }

    pub open spec fn start(self) -> GrabStartData {
        match self {
            Grab::Move(g) => g.start_data,
            Grab::Resize(g) => g.start_data,
        }
    }

    /// The pointer context the drag started from.
    pub fn start_data(&self) -> (r: &GrabStartData)
        ensures
            *r == self.start(),
    {
        match self {
            Grab::Move(g) => &g.start_data,
            Grab::Resize(g) => &g.start_data,
        }
    }

    /// The window the drag acts on.
    pub fn window(&self) -> (r: usize)
        ensures
            r == self.target(),
    {
        match self {
            Grab::Move(g) => g.window,
            Grab::Resize(g) => g.window,
        }
    }
}

/// The shell's state: the windows with their place in the space, the active
/// window, and the pointer with its pressed buttons and installed grab.
pub struct State {
    pub windows: Vec<Window>,
    pub active: Option<usize>,
    pub grab: Option<Grab>,
    pub pressed: Vec<u32>,
}

/// The mathematical model of [`State`].
pub struct StateView {
    pub windows: Seq<Window>,
    pub active: Option<usize>,
    pub grab: Option<Grab>,
    pub pressed: Set<u32>,
}

/// The set of buttons held in `s`.
pub open spec fn button_set(s: Seq<u32>) -> Set<u32> {
    Set::new(|b: u32| s.contains(b))
}

impl View for State {
    type V = StateView;

    open spec fn view(&self) -> StateView {
        StateView {
            windows: self.windows@,
            active: self.active,
            grab: self.grab,
            pressed: button_set(self.pressed@),
        }
    }
}

impl StateView {
    /// A window that exists and whose surface is alive.
    pub open spec fn live(self, w: int) -> bool {
        0 <= w < self.windows.len() && self.windows[w].alive
    }

    /// The space: where each mapped window stands.
    pub open spec fn mapped(self) -> Map<int, Point> {
        Map::new(
            |w: int| 0 <= w < self.windows.len() && self.windows[w].location is Some,
            |w: int| self.windows[w].location->Some_0,
        )
    }

    /// A window's location, or the origin while it is unmapped.
    pub open spec fn location_of(self, w: int) -> Point {
        if 0 <= w < self.windows.len() && self.windows[w].location is Some {
            self.windows[w].location->Some_0
        } else {
            Point { x: 0, y: 0 }
        }
    }

    /// The grab, when there is one, acts on a live window, and a window is
    /// in the Resizing state exactly while a resize grab acts on it.
    pub open spec fn wf(self) -> bool {
        &&& (self.grab is Some ==> self.live(self.grab->Some_0.target() as int))
        &&& forall|i: int|
            0 <= i < self.windows.len() ==> (#[trigger] self.windows[i].resize_state is Resizing <==> (
            self.grab is Some && self.grab->Some_0 is Resize && self.grab->Some_0.target() == i))
    }

    pub open spec fn with_window(self, w: int, win: Window) -> StateView {
        StateView { windows: self.windows.update(w, win), ..self }
    }

    /// Drops the grab; a resize grab sends its window straight back to Idle.
    pub open spec fn cancel_grab_step(self) -> StateView {
        match self.grab {
            Some(Grab::Resize(g)) => StateView {
                windows: self.windows.update(
                    g.window as int,
                    Window { resize_state: ResizeState::Idle, ..self.windows[g.window as int] },
                ),
                grab: None,
                ..self
            },
            _ => StateView { grab: None, ..self },
        }
    }

    /// The configure that tells an xdg window about a size, if the window
    /// is an xdg one.
    pub open spec fn configure_for(self, w: int, resizing: bool, size: Size) -> Option<Configure> {
        if self.windows[w].kind == ShellKind::Xdg {
            Some(Configure { window: w as usize, resizing, size: Some(size) })
        } else {
            None
        }
    }

    /// Pointer motion to `location`: a move grab relocates its window
    /// passively; a resize grab computes and records a candidate size and
    /// proposes it, flagged as resizing. Without a grab nothing changes.
    pub open spec fn motion_step(self, location: PointerPos) -> (StateView, Option<Configure>) {
        match self.grab {
            Some(Grab::Move(g)) => {
                let dx = location.x - g.start_data.location.x;
                let dy = location.y - g.start_data.location.y;
                let to = Point {
                    x: moved_axis(g.initial_window_location.x, dx) as i32,
                    y: moved_axis(g.initial_window_location.y, dy) as i32,
                };
                (self.map_step(g.window as int, to, false), None)
            },
            Some(Grab::Resize(g)) => {
                let dx = location.x - g.start_data.location.x;
                let dy = location.y - g.start_data.location.y;
                let win = self.windows[g.window as int];
                let c = solve_spec(g.initial_window_size, g.edges, dx, dy, win.min_size, win.max_size);
                let size = Size { w: c.0 as i32, h: c.1 as i32 };
                (
                    StateView {
                        grab: Some(Grab::Resize(ResizeSurfaceGrab { last_window_size: size, ..g })),
                        ..self
                    },
                    self.configure_for(g.window as int, true, size),
                )
            },
            None => (self, None),
        }
    }

    /// A button event: the held set gains or loses `button`. When a grab is
    /// installed and no button is held any more, the grab is released
    /// (second component); a resize grab then proposes its last candidate
    /// without the resizing flag and ends its window's drag, waiting for the
    /// acknowledgement of `serial` on an xdg window, for a commit otherwise.
    pub open spec fn button_step(self, button: u32, pressed: bool, serial: u32) -> (
        StateView,
        bool,
        Option<Configure>,
    ) {
        let held = if pressed {
            self.pressed.insert(button)
        } else {
            self.pressed.remove(button)
        };
        let s = StateView { pressed: held, ..self };
        if self.grab is Some && held.is_empty() {
            match self.grab->Some_0 {
                Grab::Move(_) => (StateView { grab: None, ..s }, true, None),
                Grab::Resize(g) => {
                    let w = g.window as int;
                    let win = self.windows[w];
                    (
                        StateView {
                            windows: self.windows.update(
                                w,
                                Window {
                                    resize_state: win.resize_state.end_step(
                                        win.kind,
                                        g.last_window_size,
                                        Some(serial),
                                    )->Some_0,
                                    ..win
                                },
                            ),
                            grab: None,
                            ..s
                        },
                        true,
                        self.configure_for(w, false, g.last_window_size),
                    )
                },
            }
        } else {
            (s, false, None)
        }
    }

    /// The window a `WindowCreated` event adds.
    pub open spec fn new_window(kind: ShellKind, size: Size, min_size: Size, max_size: Size) -> Window {
        Window {
            kind,
            size,
            min_size,
            max_size,
            location: Some(Point { x: 0, y: 0 }),
            resize_state: ResizeState::Idle,
            alive: true,
        }
    }

    /// The effect of a shell event: the new state and the reply, or the
    /// error of a resize asked for while the window still waits for the
    /// previous one to be committed (the state is then unchanged).
    pub open spec fn event_step(self, event: ShellEvent) -> Result<(StateView, EventReply), LifecycleError> {
        match event {
            ShellEvent::WindowCreated { kind, size, min_size, max_size } => {
                let id = self.windows.len() as usize;
                Ok((
                    StateView {
                        windows: self.windows.push(Self::new_window(kind, size, min_size, max_size)),
                        active: Some(id),
                        ..self
                    },
                    EventReply::Created {
                        window: id,
                        configure: if kind == ShellKind::Xdg {
                            Some(Configure { window: id, resizing: false, size: None })
                        } else {
                            None
                        },
                    },
                ))
            },
            ShellEvent::WindowMove { window, start_data, serial } => {
                let w = window as int;
                if self.live(w) && self.windows[w].location is Some {
                    let g = MoveSurfaceGrab {
                        start_data,
                        window,
                        initial_window_location: self.windows[w].location->Some_0,
                    };
                    Ok((
                        StateView { grab: Some(Grab::Move(g)), ..self.cancel_grab_step() },
                        EventReply::GrabInstalled { serial },
                    ))
                } else {
                    Ok((self, EventReply::Ignored))
                }
            },
            ShellEvent::WindowResize { window, start_data, edges, serial } => {
                let w = window as int;
                if self.live(w) && self.windows[w].location is Some {
                    if self.windows[w].resize_state.is_waiting() {
                        Err(LifecycleError::InvalidResizeState(self.windows[w].resize_state))
                    } else {
                        let c = self.cancel_grab_step();
                        let win = c.windows[w];
                        let data = ResizeData {
                            edges,
                            initial_window_location: win.location->Some_0,
                            initial_window_size: win.size,
                        };
                        let g = ResizeSurfaceGrab {
                            start_data,
                            window,
                            edges,
                            initial_window_size: win.size,
                            last_window_size: win.size,
                        };
                        Ok((
                            StateView {
                                windows: c.windows.update(
                                    w,
                                    Window { resize_state: ResizeState::Resizing(data), ..win },
                                ),
                                grab: Some(Grab::Resize(g)),
                                ..c
                            },
                            EventReply::GrabInstalled { serial },
                        ))
                    }
                } else {
                    Ok((self, EventReply::Ignored))
                }
            },
            ShellEvent::SurfaceCommit { window } => {
                let w = window as int;
                if 0 <= w < self.windows.len() && self.windows[w].resize_state.is_waiting() {
                    let size = self.windows[w].resize_state.pending_size();
                    Ok((
                        self.with_window(
                            w,
                            Window { size, resize_state: ResizeState::Idle, ..self.windows[w] },
                        ),
                        EventReply::SizeAdopted { window, size },
                    ))
                } else {
                    Ok((self, EventReply::Ignored))
                }
            },
            ShellEvent::WindowGotResized { window, new_location } => {
                Ok((self.map_step(window as int, new_location, false), EventReply::Ignored))
            },
            ShellEvent::Other => Ok((self, EventReply::Ignored)),
        }
    }

    /// The surface of window `w` was destroyed: the window is unmapped and
    /// dead, a grab on it is dropped and its resize state is back to Idle.
    pub open spec fn destroy_step(self, w: int) -> StateView {
        if 0 <= w < self.windows.len() {
            let c = if self.grab is Some && self.grab->Some_0.target() == w {
                self.cancel_grab_step()
            } else {
                self
            };
            StateView {
                windows: c.windows.update(
                    w,
                    Window { location: None, resize_state: ResizeState::Idle, alive: false, ..c.windows[w] },
                ),
                active: if c.active == Some(w as usize) {
                    None
                } else {
                    c.active
                },
                ..c
            }
        } else {
            self
        }
    }

    /// Maps window `w` at `location`; activates it when asked. Unknown or
    /// destroyed windows are left alone.
    pub open spec fn map_step(self, w: int, location: Point, activate: bool) -> StateView {
        if self.live(w) {
            StateView {
                windows: self.windows.update(w, Window { location: Some(location), ..self.windows[w] }),
                active: if activate {
                    Some(w as usize)
                } else {
                    self.active
                },
                ..self
            }
        } else {
            self
        }
    }
}

impl State {
    pub open spec fn wf(&self) -> bool {
        self@.wf()
    }

    /// An empty shell: no windows, no grab, no buttons held.
    pub fn new() -> (r: State)
        ensures
            r@.windows.len() == 0,
            r@.active is None,
            r@.grab is None,
            r@.pressed.is_empty(),
            r.wf(),
    {
        let r = State { windows: Vec::new(), active: None, grab: None, pressed: Vec::new() };
        assert(r@.pressed =~= Set::empty());
        r
    }

    /// Where window `w` stands, or the origin while it is unmapped or unknown.
    pub fn window_location(&self, w: usize) -> (r: Point)
        ensures
            r == self@.location_of(w as int),
    {
        if w < self.windows.len() {
            match self.windows[w].location {
                Some(p) => p,
                None => Point { x: 0, y: 0 },
            }
        } else {
            Point { x: 0, y: 0 }
        }
    }

    /// Maps window `w` at `location`, replacing any earlier mapping, and
    /// activates it when `activate` is set. Unknown or destroyed windows are
    /// left alone.
    pub fn map_window(&mut self, w: usize, location: Point, activate: bool)
        requires
            old(self).wf(),
        ensures
            final(self)@ == old(self)@.map_step(w as int, location, activate),
            final(self).wf(),
    {
        if w < self.windows.len() && self.windows[w].alive {
            let mut win = self.windows[w];
            win.location = Some(location);
            self.windows[w] = win;
            if activate {
                self.active = Some(w);
            }
            assert(self@.windows =~= old(self)@.windows.update(w as int, win));
        }
    }

    /// Handles one shell event from the protocol engine.
    pub fn handle_event(&mut self, event: ShellEvent) -> (r: Result<EventReply, LifecycleError>)
        requires
            old(self).wf(),
            old(self).windows.len() < usize::MAX,
        ensures
            final(self).wf(),
            match old(self)@.event_step(event) {
                Ok((v, reply)) => r == Ok::<EventReply, LifecycleError>(reply) && final(self)@ == v,
                Err(e) => r == Err::<EventReply, LifecycleError>(e) && final(self)@ == old(self)@,
            },
    {
        match event {
            ShellEvent::WindowCreated { kind, size, min_size, max_size } => {
                let id = self.windows.len();
                self.windows.push(
                    Window {
                        kind,
                        size,
                        min_size,
                        max_size,
                        location: Some(Point { x: 0, y: 0 }),
                        resize_state: ResizeState::Idle,
                        alive: true,
                    },
                );
                self.active = Some(id);
                let configure = match kind {
                    ShellKind::Xdg => Some(Configure { window: id, resizing: false, size: None }),
                    ShellKind::X11 => None,
                };
                Ok(EventReply::Created { window: id, configure })
            },
            ShellEvent::WindowMove { window, start_data, serial } => {
                if window < self.windows.len() && self.windows[window].alive {
                    match self.windows[window].location {
                        Some(loc) => {
                            self.unset_grab();
                            self.grab = Some(
                                Grab::Move(MoveSurfaceGrab { start_data, window, initial_window_location: loc }),
                            );
                            Ok(EventReply::GrabInstalled { serial })
                        },
                        None => Ok(EventReply::Ignored),
                    }
                } else {
                    Ok(EventReply::Ignored)
                }
            },
            ShellEvent::WindowResize { window, start_data, edges, serial } => {
                if window < self.windows.len() && self.windows[window].alive {
                    match self.windows[window].location {
                        Some(loc) => {
                            if self.windows[window].resize_state.is_waiting_for_commit() {
                                return Err(LifecycleError::InvalidResizeState(self.windows[window].resize_state));
                            }
                            self.unset_grab();
                            let mut win = self.windows[window];
                            let _ = win.resize_state.begin(edges, loc, win.size);
                            self.windows[window] = win;
                            let size = win.size;
                            self.grab = Some(
                                Grab::Resize(
                                    ResizeSurfaceGrab {
                                        start_data,
                                        window,
                                        edges,
                                        initial_window_size: size,
                                        last_window_size: size,
                                    },
                                ),
                            );
                            Ok(EventReply::GrabInstalled { serial })
                        },
                        None => Ok(EventReply::Ignored),
                    }
                } else {
                    Ok(EventReply::Ignored)
                }
            },
            ShellEvent::SurfaceCommit { window } => {
                if window < self.windows.len() && self.windows[window].resize_state.is_waiting_for_commit() {
                    let mut win = self.windows[window];
                    match win.resize_state.on_surface_committed() {
                        Ok(size) => {
                            win.size = size;
                            self.windows[window] = win;
                            Ok(EventReply::SizeAdopted { window, size })
                        },
                        Err(_) => Ok(EventReply::Ignored),
                    }
                } else {
                    Ok(EventReply::Ignored)
                }
            },
            ShellEvent::WindowGotResized { window, new_location } => {
                self.map_window(window, new_location, false);
                Ok(EventReply::Ignored)
            },
            ShellEvent::Other => Ok(EventReply::Ignored),
        }
    }

    /// The surface of window `w` was destroyed.
    pub fn destroy_window(&mut self, w: usize)
        requires
            old(self).wf(),
        ensures
            final(self)@ == old(self)@.destroy_step(w as int),
            final(self).wf(),
    {
        if w < self.windows.len() {
            let targeted = match self.grab {
                Some(g) => g.window() == w,
                None => false,
            };
            if targeted {
                self.unset_grab();
            }
            let mut win = self.windows[w];
            win.location = None;
            win.resize_state.cancel();
            win.alive = false;
            self.windows[w] = win;
            if self.active == Some(w) {
                self.active = None;
            }
        }
    }

    /// Forcibly removes the grab; a resize grab's window goes straight back
    /// to Idle.
    pub fn unset_grab(&mut self)
        requires
            old(self).wf(),
        ensures
            final(self)@ == old(self)@.cancel_grab_step(),
            final(self).wf(),
    {
        match self.grab {
            Some(Grab::Resize(g)) => {
                let mut win = self.windows[g.window];
                win.resize_state.cancel();
                self.windows[g.window] = win;
                self.grab = None;
                assert(self@.windows =~= old(self)@.windows.update(g.window as int, win));
            },
            _ => {
                self.grab = None;
            },
        }
    }

    fn configure_for(&self, w: usize, resizing: bool, size: Size) -> (r: Option<Configure>)
        requires
            w < self.windows.len(),
        ensures
            r == self@.configure_for(w as int, resizing, size),
    {
        match self.windows[w].kind {
            ShellKind::Xdg => Some(Configure { window: w, resizing, size: Some(size) }),
            ShellKind::X11 => None,
        }
    }

    /// Pointer motion to `location`, handed to the installed grab.
    pub fn pointer_motion(&mut self, location: PointerPos) -> (r: Option<Configure>)
        requires
            old(self).wf(),
        ensures
            (final(self)@, r) == old(self)@.motion_step(location),
            final(self).wf(),
    {
        match self.grab {
            None => None,
            Some(Grab::Move(g)) => {
                let (dx, dy) = displacement(g.start_data.location, location);
                let to = move_location(g.initial_window_location, dx, dy);
                self.map_window(g.window, to, false);
                None
            },
            Some(Grab::Resize(g)) => {
                let (dx, dy) = displacement(g.start_data.location, location);
                let win = self.windows[g.window];
                let size = solve_size(g.initial_window_size, g.edges, dx, dy, win.min_size, win.max_size);
                self.grab = Some(Grab::Resize(ResizeSurfaceGrab { last_window_size: size, ..g }));
                self.configure_for(g.window, true, size)
            },
        }
    }

    /// A button press (`pressed`) or release, with the serial of the event.
    /// Returns whether the grab was released, and the configure to send.
    pub fn pointer_button(&mut self, button: u32, pressed: bool, serial: u32) -> (r: (bool, Option<Configure>))
        requires
            old(self).wf(),
        ensures
            (final(self)@, r.0, r.1) == old(self)@.button_step(button, pressed, serial),
            final(self).wf(),
    {
        if pressed {
            if !holds(&self.pressed, button) {
                self.pressed.push(button);
            }
        } else {
            self.pressed = without(&self.pressed, button);
        }
        proof {
            if pressed {
                if !old(self).pressed@.contains(button) {
                    lemma_button_set_push(old(self).pressed@, button);
                }
                assert(self@.pressed =~= old(self)@.pressed.insert(button));
            } else {
                assert(self@.pressed =~= old(self)@.pressed.remove(button));
            }
            lemma_button_set_empty(self.pressed@);
        }
        if self.grab.is_some() && self.pressed.len() == 0 {
            match self.grab {
                Some(Grab::Resize(g)) => {
                    let cfg = self.configure_for(g.window, false, g.last_window_size);
                    let mut win = self.windows[g.window];
                    let _ = win.resize_state.end_from_drag(win.kind, g.last_window_size, Some(serial));
                    self.windows[g.window] = win;
                    self.grab = None;
                    assert(self@.windows =~= old(self)@.windows.update(g.window as int, win));
                    (true, cfg)
                },
                _ => {
                    self.grab = None;
                    (true, None)
                },
            }
        } else {
            (false, None)
        }
    }
}

/// Whether `b` is held in `v`.
fn holds(v: &Vec<u32>, b: u32) -> (r: bool)
    ensures
        r == v@.contains(b),
{
    let mut i: usize = 0;
    while i < v.len()
        invariant
            0 <= i <= v.len(),
            forall|j: int| 0 <= j < i ==> v@[j] != b,
        decreases v.len() - i,
    {
        if v[i] == b {
            return true;
        }
        i = i + 1;
    }
    false
}

/// The buttons of `v` but `b`.
fn without(v: &Vec<u32>, b: u32) -> (r: Vec<u32>)
    ensures
        button_set(r@) == button_set(v@).remove(b),
{
    let mut r: Vec<u32> = Vec::new();
    let mut i: usize = 0;
    while i < v.len()
        invariant
            0 <= i <= v.len(),
            forall|x: u32|
                r@.contains(x) <==> (x != b && exists|j: int| 0 <= j < i && #[trigger] v@[j] == x),
        decreases v.len() - i,
    {
        let ghost before = r@;
        if v[i] != b {
            r.push(v[i]);
        }
        proof {
            assert forall|x: u32|
                r@.contains(x) <==> (x != b && exists|j: int| 0 <= j < i + 1 && #[trigger] v@[j] == x) by {
                if r@.contains(x) {
                    let k = choose|k: int| 0 <= k < r@.len() && r@[k] == x;
                    if k < before.len() {
                        assert(before[k] == x);
                        assert(before.contains(x));
                        let j = choose|j: int| 0 <= j < i && #[trigger] v@[j] == x;
                        assert(0 <= j < i + 1 && v@[j] == x);
                    } else {
                        assert(v@[i as int] == x);
                        assert(x != b);
                    }
                }
                if x != b && exists|j: int| 0 <= j < i + 1 && #[trigger] v@[j] == x {
                    let j = choose|j: int| 0 <= j < i + 1 && #[trigger] v@[j] == x;
                    if j < i {
                        assert(before.contains(x));
                        let k = choose|k: int| 0 <= k < before.len() && before[k] == x;
                        assert(r@[k] == x);
                    } else {
                        assert(r@[before.len() as int] == x);
                    }
                }
            }
        }
        i = i + 1;
    }
    assert forall|x: u32| button_set(r@).contains(x) <==> button_set(v@).remove(b).contains(x) by {
        if v@.contains(x) {
            let j = choose|j: int| 0 <= j < v@.len() && v@[j] == x;
            assert(v@[j] == x);
        }
    }
    assert(button_set(r@) =~= button_set(v@).remove(b));
    r
}

/// Pushing a button adds it to the held set.
proof fn lemma_button_set_push(s: Seq<u32>, b: u32)
    ensures
        button_set(s.push(b)) == button_set(s).insert(b),
{
    assert forall|x: u32| s.push(b).contains(x) <==> (s.contains(x) || x == b) by {
        if s.push(b).contains(x) {
            let k = choose|k: int| 0 <= k < s.push(b).len() && s.push(b)[k] == x;
            if k < s.len() {
                assert(s[k] == x);
            }
        }
        if s.contains(x) {
            let k = choose|k: int| 0 <= k < s.len() && s[k] == x;
            assert(s.push(b)[k] == x);
        }
        if x == b {
            assert(s.push(b)[s.len() as int] == x);
        }
    }
    assert forall|x: u32| button_set(s.push(b)).contains(x) <==> button_set(s).insert(b).contains(x) by {
        assert(button_set(s.push(b)).contains(x) == s.push(b).contains(x));
        assert(button_set(s).contains(x) == s.contains(x));
    }
    assert(button_set(s.push(b)) =~= button_set(s).insert(b));
}

/// No button is held exactly when the sequence is empty.
proof fn lemma_button_set_empty(s: Seq<u32>)
    ensures
        button_set(s).is_empty() <==> s.len() == 0,
{
    if s.len() > 0 {
        assert(button_set(s).contains(s[0]));
    } else {
        assert(button_set(s) =~= Set::empty());
    }
}

/// Mapping a window twice leaves one mapping for it, at the later location;
/// the other windows' mappings are those of mapping it once, at the later
/// location.
pub proof fn lemma_map_twice(s: StateView, w: int, first: Point, second: Point, activate: bool)
    requires
        s.live(w),
    ensures
        s.map_step(w, first, activate).map_step(w, second, false).mapped() == s.map_step(
            w,
            second,
            activate,
        ).mapped(),
        s.map_step(w, first, activate).map_step(w, second, false).mapped().dom().contains(w),
        s.map_step(w, first, activate).map_step(w, second, false).mapped()[w] == second,
{
    let a = s.map_step(w, first, activate).map_step(w, second, false);
    let b = s.map_step(w, second, activate);
    assert(a.windows =~= b.windows);
    assert(a.mapped() =~= b.mapped());
}

/// With a grab installed and no button held, pressing `a`, then `b`, then
/// releasing both (in either order) leaves no button held and no grab, and
/// the grab is released by exactly one of the four events.
pub proof fn lemma_two_buttons_release_once(s: StateView, a: u32, b: u32, a_first: bool, serial: u32)
    requires
        s.grab is Some,
        s.pressed.is_empty(),
    ensures
        ({
            let (s1, r1, c1) = s.button_step(a, true, serial);
            let (s2, r2, c2) = s1.button_step(b, true, serial);
            let (x, y) = if a_first {
                (a, b)
            } else {
                (b, a)
            };
            let (s3, r3, c3) = s2.button_step(x, false, serial);
            let (s4, r4, c4) = s3.button_step(y, false, serial);
            &&& s4.pressed.is_empty()
            &&& s4.grab is None
            &&& (if r1 { 1int } else { 0 }) + (if r2 { 1int } else { 0 }) + (if r3 { 1int } else { 0 }) + (
            if r4 { 1int } else { 0 }) == 1
        }),
{
    let (x, y) = if a_first {
        (a, b)
    } else {
        (b, a)
    };
    let p1 = s.pressed.insert(a);
    let p2 = p1.insert(b);
    let p3 = p2.remove(x);
    let p4 = p3.remove(y);
    assert(p1.contains(a));
    assert(p2.contains(b));
    if a != b {
        assert(p3.contains(y));
    } else {
        assert(p3 =~= Set::empty());
    }
    assert(p4 =~= Set::empty());
}

} // verus!
