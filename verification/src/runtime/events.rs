//! Dispatch of the host's events: what each one asks of the application.

use crate::render::surface::{FrameDirective, PhysicalSize, EXIT_SUCCESS};
use vstd::prelude::*;

verus! {

/// Whether a key went down or up.
#[derive(Debug, Clone, Copy, PartialEq, Eq, Structural)]
pub enum ElementState {
    Pressed,
    Released,
}

/// The key of a keyboard event, as far as the application tells keys apart.
#[derive(Debug, Clone, Copy, PartialEq, Eq, Structural)]
pub enum VirtualKey {
    Escape,
    /// Any other key, or none that the host could name.
    Other,
}

/// An event of one window.
#[derive(Debug, Clone, Copy, PartialEq, Eq, Structural)]
pub enum WindowEvent {
    CloseRequested,
    KeyboardInput { state: ElementState, key: VirtualKey },
    Resized(PhysicalSize),
    ScaleFactorChanged { new_inner_size: PhysicalSize },
    /// An event that the application does not act on.
    Other,
}

/// An event of the host's event loop.
#[derive(Debug, Clone, Copy, PartialEq, Eq, Structural)]
pub enum Event {
    WindowEvent { window: u64, event: WindowEvent },
    RedrawRequested(u64),
    MainEventsCleared,
    /// An event that the application does not act on.
    Other,
}

/// Whether the event loop goes on.
#[derive(Debug, Clone, Copy, PartialEq, Eq, Structural)]
pub enum ControlDirective {
    Continue,
    /// End the process with this status.
    Exit(i32),
}

/// What the host is to do in answer to an event.
#[derive(Debug, Clone, Copy, PartialEq, Eq, Structural)]
pub enum HostAction {
    Nothing,
    /// Hand the window's new size to its surface.
    Resize(PhysicalSize),
    /// Draw a frame.
    Redraw,
    /// Request a redraw, then run the simulation schedule for one tick.
    Tick,
}

/// The answer to an event.
#[derive(Debug, Clone, Copy, PartialEq, Eq, Structural)]
pub struct Response {
    pub control: ControlDirective,
    pub action: HostAction,
}

/// What an event asks of the application whose window is `own_window`.
/// `consumed` says that render-adjacent logic has used the event up, so that
/// it goes no further.
pub open spec fn spec_dispatch(own_window: u64, event: Event, consumed: bool) -> Response {
    match event {
        Event::WindowEvent { window, event } if window == own_window && !consumed => match event {
            WindowEvent::CloseRequested | WindowEvent::KeyboardInput {
                state: ElementState::Pressed,
                key: VirtualKey::Escape,
            } => Response { control: ControlDirective::Exit(EXIT_SUCCESS), action: HostAction::Nothing },
            WindowEvent::Resized(size) | WindowEvent::ScaleFactorChanged {
                new_inner_size: size,
            } => Response { control: ControlDirective::Continue, action: HostAction::Resize(size) },
            _ => Response { control: ControlDirective::Continue, action: HostAction::Nothing },
        },
        Event::RedrawRequested(_) => Response {
            control: ControlDirective::Continue,
            action: HostAction::Redraw,
        },
        Event::MainEventsCleared => Response {
            control: ControlDirective::Continue,
            action: HostAction::Tick,
        },
        _ => Response { control: ControlDirective::Continue, action: HostAction::Nothing },
    }
}

/// Decides what an event asks of the application: to end on a close request
/// or on the escape key, to resize on a new window size, to draw on a redraw
/// request, to tick once the host's events are cleared.
#[verifier::when_used_as_spec(spec_dispatch)]
pub fn dispatch(own_window: u64, event: Event, consumed: bool) -> (response: Response)
    ensures
        response == spec_dispatch(own_window, event, consumed),
{
    let idle = Response { control: ControlDirective::Continue, action: HostAction::Nothing };
    match event {
        Event::WindowEvent { window, event } => {
            if window != own_window || consumed {
                return idle;
            }
            match event {
                WindowEvent::CloseRequested => Response {
                    control: ControlDirective::Exit(EXIT_SUCCESS),
                    action: HostAction::Nothing,
                },
                WindowEvent::KeyboardInput { state, key } => match (state, key) {
                    (ElementState::Pressed, VirtualKey::Escape) => Response {
                        control: ControlDirective::Exit(EXIT_SUCCESS),
                        action: HostAction::Nothing,
                    },
                    _ => idle,
                },
                WindowEvent::Resized(size) => Response {
                    control: ControlDirective::Continue,
                    action: HostAction::Resize(size),
                },
                WindowEvent::ScaleFactorChanged { new_inner_size } => Response {
                    control: ControlDirective::Continue,
                    action: HostAction::Resize(new_inner_size),
                },
                WindowEvent::Other => idle,
            }
        },
        Event::RedrawRequested(_) => Response {
            control: ControlDirective::Continue,
            action: HostAction::Redraw,
        },
        Event::MainEventsCleared => Response {
            control: ControlDirective::Continue,
            action: HostAction::Tick,
        },
        Event::Other => idle,
    }
}

/// Whether the event loop goes on after the frame driver has said what to do
/// with a surface: it ends where the process is to end, and only there.
pub fn control_after(directive: FrameDirective) -> (control: ControlDirective)
    ensures
        control == match directive {
            FrameDirective::Exit(code) => ControlDirective::Exit(code),
            _ => ControlDirective::Continue,
        },
{
    match directive {
        FrameDirective::Exit(code) => ControlDirective::Exit(code),
        _ => ControlDirective::Continue,
    }
}

} // verus!
