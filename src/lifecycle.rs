use vstd::prelude::*;
use crate::geometry::{Point, ResizeEdge, Size};

verus! {

/// The protocol family of a top-level window.
#[derive(Clone, Copy, Debug, PartialEq, Eq, Structural)]
pub enum ShellKind {
    /// xdg-shell: configures are acknowledged by serial.
    Xdg,
    /// Legacy toolkit windows: no acknowledgement channel.
    X11,
}

/// What a resize started from.
#[derive(Clone, Copy, Debug, PartialEq, Eq, Structural)]
pub struct ResizeData {
    pub edges: ResizeEdge,
    pub initial_window_location: Point,
    pub initial_window_size: Size,
}

/// Where a surface stands in the handshake between a resize drag and the
/// commit of a buffer of the new size.
#[derive(Clone, Copy, Debug, PartialEq, Eq, Structural)]
pub enum ResizeState {
    Idle,
    Resizing(ResizeData),
    /// The drag ended; waiting for the client to acknowledge the final
    /// configure (serial) and commit the final size.
    WaitingForFinalAck(ResizeData, Size, u32),
    /// The drag ended; waiting for the next commit to adopt the final size.
    WaitingForCommit(ResizeData, Size),
}

/// A transition asked for in a state that does not allow it.
#[derive(Clone, Copy, Debug, PartialEq, Eq, Structural)]
pub enum LifecycleError {
    InvalidResizeState(ResizeState),
}

impl ResizeState {
    pub open spec fn is_waiting(self) -> bool {
        self is WaitingForFinalAck || self is WaitingForCommit
    }

    /// The size that the next commit adopts, in a waiting state.
    pub open spec fn pending_size(self) -> Size {
        match self {
            ResizeState::WaitingForFinalAck(_, s, _) => s,
            ResizeState::WaitingForCommit(_, s) => s,
            _ => Size { w: 0, h: 0 },
        }
    }

    /// The state that `end_from_drag` leaves behind for `data`.
    pub open spec fn ended(data: ResizeData, kind: ShellKind, final_size: Size, ack_serial: Option<u32>) -> ResizeState {
        match (kind, ack_serial) {
            (ShellKind::Xdg, Some(serial)) => ResizeState::WaitingForFinalAck(data, final_size, serial),
            _ => ResizeState::WaitingForCommit(data, final_size),
        }
    }

    /// The state after `begin`, or `None` where it is refused.
    pub open spec fn begin_step(self, data: ResizeData) -> Option<ResizeState> {
        if self is Idle {
            Some(ResizeState::Resizing(data))
        } else {
            None
        }
    }

    /// The state after `end_from_drag`, or `None` where it is refused.
    pub open spec fn end_step(self, kind: ShellKind, final_size: Size, ack_serial: Option<u32>) -> Option<ResizeState> {
        match self {
            ResizeState::Resizing(data) => Some(ResizeState::ended(data, kind, final_size, ack_serial)),
            _ => None,
        }
    }

    /// The state after a commit and the size it adopts, or `None` where the
    /// commit is refused.
    pub open spec fn commit_step(self) -> Option<(ResizeState, Size)> {
        if self.is_waiting() {
            Some((ResizeState::Idle, self.pending_size()))
        } else {
            None
        }
    }

    pub fn is_idle(&self) -> (r: bool)
        ensures
            r == (*self is Idle),
    {
        match self {
            ResizeState::Idle => true,
            _ => false,
        }
    }

    pub fn is_resizing(&self) -> (r: bool)
        ensures
            r == (*self is Resizing),
    {
        match self {
            ResizeState::Resizing(_) => true,
            _ => false,
        }
    }

    pub fn is_waiting_for_commit(&self) -> (r: bool)
        ensures
            r == self.is_waiting(),
    {
        match self {
            ResizeState::WaitingForFinalAck(..) => true,
            ResizeState::WaitingForCommit(..) => true,
            _ => false,
        }
    }

    /// Starts a resize: Idle becomes Resizing; any other state is refused
    /// and kept.
    pub fn begin(&mut self, edges: ResizeEdge, location: Point, size: Size) -> (r: Result<(), LifecycleError>)
        ensures
            r is Ok <==> old(self).begin_step(
                (ResizeData { edges, initial_window_location: location, initial_window_size: size }),
            ) is Some,
            r is Ok ==> Some(*final(self)) == old(self).begin_step(
                (ResizeData { edges, initial_window_location: location, initial_window_size: size }),
            ),
            r is Err ==> *final(self) == *old(self) && r == Err::<(), LifecycleError>(
                LifecycleError::InvalidResizeState(*old(self)),
            ),
    {
        match self {
            ResizeState::Idle => {
                *self = ResizeState::Resizing(
                    ResizeData { edges, initial_window_location: location, initial_window_size: size },
                );
                Ok(())
            },
            _ => Err(LifecycleError::InvalidResizeState(*self)),
        }
    }

    /// Ends the drag: Resizing becomes WaitingForFinalAck for an xdg window
    /// with a serial to wait for, WaitingForCommit otherwise. Any other
    /// state is refused and kept.
    pub fn end_from_drag(&mut self, kind: ShellKind, final_size: Size, ack_serial: Option<u32>) -> (r: Result<(), LifecycleError>)
        ensures
            r is Ok <==> old(self).end_step(kind, final_size, ack_serial) is Some,
            r is Ok ==> Some(*final(self)) == old(self).end_step(kind, final_size, ack_serial),
            r is Err ==> *final(self) == *old(self) && r == Err::<(), LifecycleError>(
                LifecycleError::InvalidResizeState(*old(self)),
            ),
    {
        match *self {
            ResizeState::Resizing(data) => {
                *self = match (kind, ack_serial) {
                    (ShellKind::Xdg, Some(serial)) => ResizeState::WaitingForFinalAck(data, final_size, serial),
                    _ => ResizeState::WaitingForCommit(data, final_size),
                };
                Ok(())
            },
            _ => Err(LifecycleError::InvalidResizeState(*self)),
        }
    }

    /// A buffer was committed: a waiting state becomes Idle and hands back
    /// the size recorded when the drag ended. Idle and Resizing are refused
    /// and kept.
    pub fn on_surface_committed(&mut self) -> (r: Result<Size, LifecycleError>)
        ensures
            r is Ok <==> old(self).commit_step() is Some,
            r is Ok ==> Some((*final(self), r->Ok_0)) == old(self).commit_step(),
            r is Err ==> *final(self) == *old(self) && r == Err::<Size, LifecycleError>(
                LifecycleError::InvalidResizeState(*old(self)),
            ),
    {
        match *self {
            ResizeState::WaitingForFinalAck(_, size, _) => {
                *self = ResizeState::Idle;
                Ok(size)
            },
            ResizeState::WaitingForCommit(_, size) => {
                *self = ResizeState::Idle;
                Ok(size)
            },
            _ => Err(LifecycleError::InvalidResizeState(*self)),
        }
    }

    /// The resize was abandoned (its surface went away): back to Idle
    /// directly, from any state.
    pub fn cancel(&mut self)
        ensures
            *final(self) is Idle,
    {
        *self = ResizeState::Idle;
    }
}

/// From Idle, a resize that begins, ends its drag and sees a commit is back
/// at Idle and adopts the size the drag ended with, for either protocol
/// family and with or without a serial to wait for.
pub proof fn lemma_lifecycle_round_trip(
    data: ResizeData,
    kind: ShellKind,
    final_size: Size,
    ack_serial: Option<u32>,
)
    ensures
        ResizeState::Idle.begin_step(data) is Some,
        ResizeState::Idle.begin_step(data)->Some_0.end_step(kind, final_size, ack_serial) is Some,
        ResizeState::Idle.begin_step(data)->Some_0.end_step(kind, final_size, ack_serial)->Some_0.commit_step()
            == Some((ResizeState::Idle, final_size)),
{
}

/// A commit is refused while no resize is in progress and while the drag is
/// still going on.
pub proof fn lemma_commit_refused_when_not_waiting(data: ResizeData)
    ensures
        ResizeState::Idle.commit_step() is None,
        ResizeState::Resizing(data).commit_step() is None,
{
}

} // verus!
