use vstd::prelude::*;

verus! {

/// Refresh rate, in millihertz, given to the nested window's output mode.
pub const NESTED_REFRESH: i32 = 60_000;

/// An output mode: size in physical pixels and refresh rate in millihertz.
#[derive(Clone, Copy, Debug, PartialEq, Eq, Structural)]
pub struct Mode {
    pub width: i32,
    pub height: i32,
    pub refresh: i32,
}

/// An input event of the nested (windowed) backend, as far as routing goes.
#[derive(Clone, Copy, Debug, PartialEq, Eq, Structural)]
pub enum NestedInput {
    /// The host window was resized to this physical size.
    Resized { width: i32, height: i32 },
    /// Any other input event.
    Other,
}

/// Where a nested backend's input event goes.
#[derive(Clone, Copy, Debug, PartialEq, Eq, Structural)]
pub enum InputRoute {
    /// Change the nested output's mode to this one.
    UpdateOutputMode(Mode),
    /// Hand the event on to the compositor's input processing.
    Forward,
}

/// A resize of the host window changes the nested output's mode to the new
/// size at 60 Hz; every other event is handed on.
pub fn route_nested_input(event: NestedInput) -> (r: InputRoute)
    ensures
        match event {
            NestedInput::Resized { width, height } => r == InputRoute::UpdateOutputMode(
                (Mode { width, height, refresh: NESTED_REFRESH }),
            ),
            NestedInput::Other => r == InputRoute::Forward,
        },
{
    match event {
        NestedInput::Resized { width, height } => InputRoute::UpdateOutputMode(
            Mode { width, height, refresh: NESTED_REFRESH },
        ),
        NestedInput::Other => InputRoute::Forward,
    }
}

} // verus!
