//! The closed catalogue of commands that travel over the bus, and the topics
//! they are published under.

use crate::scalar::Scalar;
use vstd::prelude::*;

verus! {

/// Topic of a published event: the key by which mailboxes select what they receive.
#[derive(Debug, Hash, PartialEq, Eq, Clone, Copy, Structural)]
pub enum EventID {
    RenderEvent,
    WindowEvent,
    EntityEvent,
    UIEvent,
}

/// Severity of a console line.
#[derive(Debug, Clone, Copy, PartialEq, Eq, Structural)]
pub enum ConsoleLogLevel {
    INFO,
    WARNING,
    ERROR,
}

/// A command. Events are values: publishing hands every interested mailbox
/// its own copy.
#[derive(Clone, Debug, PartialEq, Eq)]
pub enum Event {
    /// For the renderer: reload shaders.
    ReloadShaders,
    /// For the renderer: toggle wireframe mode.
    ToggleWireframe,
    /// For the renderer: set the clear colour to red, green, blue.
    SetClearColor(Scalar, Scalar, Scalar),
    /// For the renderer: switch the antialiasing pass on or off.
    ToggleFXAA,
    /// For the window: resize to a width and height.
    SetWindowSize(Scalar, Scalar),
    /// For the window: toggle fullscreen.
    ToggleFullscreen,
    /// For the window: toggle vertical sync.
    ToggleVSync,
    /// For entities: move the camera to a position at once.
    SetCameraPos(Scalar, Scalar),
    /// For entities: set the camera's movement intents.
    MoveCamera(bool, bool, bool, bool),
    /// For the user interface: show a message in the console.
    ConsoleMessage(String, ConsoleLogLevel),
    /// For the user interface: show or hide the console.
    ToggleConsole,
}

/// The numbers an event carries, in the order it lists them.
pub open spec fn figures_of(event: Event) -> Seq<Scalar> {
    match event {
        Event::SetClearColor(r, g, b) => seq![r, g, b],
        Event::SetWindowSize(w, h) => seq![w, h],
        Event::SetCameraPos(x, y) => seq![x, y],
        _ => Seq::empty(),
    }
}

impl Event {
    /// The numbers the event carries, in the order it lists them.
    pub fn figures(&self) -> (figures: Vec<Scalar>)
        ensures
            figures@ == figures_of(*self),
    {
        let mut figures: Vec<Scalar> = Vec::new();
        match self {
            Event::SetClearColor(r, g, b) => {
                figures.push(*r);
                figures.push(*g);
                figures.push(*b);
            },
            Event::SetWindowSize(w, h) => {
                figures.push(*w);
                figures.push(*h);
            },
            Event::SetCameraPos(x, y) => {
                figures.push(*x);
                figures.push(*y);
            },
            _ => {},
        }
        assert(figures@ =~= figures_of(*self));
        figures
    }

    /// A copy equal to the event.
    pub fn duplicate(&self) -> (copy: Event)
        ensures
            copy == *self,
    {
        match self {
            Event::ReloadShaders => Event::ReloadShaders,
            Event::ToggleWireframe => Event::ToggleWireframe,
            Event::SetClearColor(r, g, b) => Event::SetClearColor(*r, *g, *b),
            Event::ToggleFXAA => Event::ToggleFXAA,
            Event::SetWindowSize(w, h) => Event::SetWindowSize(*w, *h),
            Event::ToggleFullscreen => Event::ToggleFullscreen,
            Event::ToggleVSync => Event::ToggleVSync,
            Event::SetCameraPos(x, y) => Event::SetCameraPos(*x, *y),
            Event::MoveCamera(a, b, c, d) => Event::MoveCamera(*a, *b, *c, *d),
            Event::ConsoleMessage(text, level) => Event::ConsoleMessage(text.clone(), *level),
            Event::ToggleConsole => Event::ToggleConsole,
        }
    }
}

} // verus!
