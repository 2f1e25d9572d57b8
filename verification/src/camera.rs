//! The camera's input state machine.
//!
//! The camera keeps one flag for each movement key and one for the mouse
//! button that rotates it. The flags follow the physical state of the keys:
//! a press sets a flag, the release clears it. Once per frame the flags are
//! turned into a step: how far the mouse dragged the view, and along which
//! of the camera's axes it moves. The pose itself is real-valued and kept by
//! the caller, who scales the step by the camera's speeds.

use crate::bus::drained;
use crate::bus::drained_events;
use crate::bus::EventBus;
use crate::bus::Subscription;
use crate::event::Event;
use crate::scalar::Scalar;
use vstd::prelude::*;

verus! {

/// Whether a key or button went down or came up.
#[derive(Debug, Clone, Copy, PartialEq, Eq, Structural)]
pub enum ElementState {
    Pressed,
    Released,
}

/// The keys the demo reads; every other key is `Other`.
#[derive(Debug, Clone, Copy, PartialEq, Eq, Structural)]
pub enum Key {
    Space,
    Down,
    A,
    D,
    W,
    S,
    Escape,
    Other,
}

/// The mouse buttons.
#[derive(Debug, Clone, Copy, PartialEq, Eq, Structural)]
pub enum MouseButton {
    Left,
    Right,
    Middle,
    Other,
}

/// A window event, reduced to what the demo reads of it.
#[derive(Debug, Clone, Copy, PartialEq, Eq, Structural)]
pub enum InputEvent {
    /// A key changed state.
    KeyboardInput(ElementState, Key),
    /// A mouse button changed state.
    MouseInput(ElementState, MouseButton),
    /// The pointer moved to a position in window pixels.
    MouseMoved(i32, i32),
    /// The window was resized to a width and height.
    Resized(u32, u32),
    /// The window was closed.
    Closed,
    /// Any other event, or none.
    Other,
}

/// The movement intents: what the keys and the rotate button ask for.
#[derive(Debug, Clone, Copy, PartialEq, Eq, Structural)]
pub struct Controls {
    pub moving_up: bool,
    pub moving_down: bool,
    pub moving_forward: bool,
    pub moving_backward: bool,
    pub moving_left: bool,
    pub moving_right: bool,
    pub moving_rotating: bool,
}

/// Movement along one axis asked for by a pair of opposing intents: one
/// step towards the first, one step back for the second.
pub open spec fn axis(towards: bool, away: bool) -> int {
    (if towards { 1int } else { 0int }) - (if away { 1int } else { 0int })
}

impl Controls {
    /// No key held, not rotating.
    pub open spec fn idle() -> Controls {
        Controls {
            moving_up: false,
            moving_down: false,
            moving_forward: false,
            moving_backward: false,
            moving_left: false,
            moving_right: false,
            moving_rotating: false,
        }
    }

    /// The intents after an event. A key event sets its flag to whether the
    /// key is now down; the left mouse button does the same for rotation;
    /// every other event leaves the intents alone.
    pub open spec fn after(self, event: InputEvent) -> Controls {
        match event {
            InputEvent::KeyboardInput(state, key) => {
                let held = state == ElementState::Pressed;
                match key {
                    Key::Space => Controls { moving_up: held, ..self },
                    Key::Down => Controls { moving_down: held, ..self },
                    Key::A => Controls { moving_left: held, ..self },
                    Key::D => Controls { moving_right: held, ..self },
                    Key::W => Controls { moving_forward: held, ..self },
                    Key::S => Controls { moving_backward: held, ..self },
                    _ => self,
                }
            },
            InputEvent::MouseInput(state, MouseButton::Left) => Controls {
                moving_rotating: state == ElementState::Pressed,
                ..self
            },
            _ => self,
        }
    }

    /// Steps along the camera's right axis: 1, 0 or -1.
    pub open spec fn right(self) -> int {
        axis(self.moving_right, self.moving_left)
    }

    /// Steps along the camera's up axis: 1, 0 or -1.
    pub open spec fn up(self) -> int {
        axis(self.moving_up, self.moving_down)
    }

    /// Steps along the camera's forward axis: 1, 0 or -1.
    pub open spec fn forward(self) -> int {
        axis(self.moving_forward, self.moving_backward)
    }
}

/// What one frame asks of the camera's pose.
#[derive(Debug, Clone, PartialEq, Eq)]
pub struct CameraStep {
    /// The positions the camera was told to jump to since the last update,
    /// oldest first.
    pub position_commands: Vec<(Scalar, Scalar)>,
    /// While rotating: how far the pointer moved since the last update, in
    /// pixels along x and y. `None` while not rotating.
    pub turn: Option<(i64, i64)>,
    /// Steps along the camera's right axis: 1, 0 or -1.
    pub right: i8,
    /// Steps along the camera's up axis: 1, 0 or -1.
    pub up: i8,
    /// Steps along the camera's forward axis: 1, 0 or -1.
    pub forward: i8,
}

/// The positions of the camera-position commands among `events`, in order.
pub open spec fn position_commands(events: Seq<Event>) -> Seq<(Scalar, Scalar)>
    decreases events.len(),
{
    if events.len() == 0 {
        Seq::empty()
    } else {
        match events.last() {
            Event::SetCameraPos(x, y) => position_commands(events.drop_last()).push((x, y)),
            _ => position_commands(events.drop_last()),
        }
    }
}

/// Where the pointer is after an event: where the event moved it, or where it was.
pub open spec fn pointer_after(previous: (i32, i32), event: InputEvent) -> (i32, i32) {
    match event {
        InputEvent::MouseMoved(x, y) => (x, y),
        _ => previous,
    }
}

/// How far the pointer moved, in pixels along x and y, if the camera is
/// rotating; `None` if it is not.
pub open spec fn turn_of(controls: Controls, previous: (i32, i32), event: InputEvent) -> Option<
    (i64, i64),
> {
    if controls.moving_rotating {
        let now = pointer_after(previous, event);
        Some(((now.0 - previous.0) as i64, (now.1 - previous.1) as i64))
    } else {
        None
    }
}

/// The pointer position the camera remembers after a frame: the current
/// one while rotating, else the one it had.
pub open spec fn pointer_kept(controls: Controls, previous: (i32, i32), event: InputEvent) -> (
    i32,
    i32,
) {
    if controls.moving_rotating {
        pointer_after(previous, event)
    } else {
        previous
    }
}

/// The input side of the camera.
pub struct Camera {
    event_queue: Subscription,
    prev_mouse_pos: (i32, i32),
    controls: Controls,
}

impl Camera {
    /// The mailbox the camera drains.
    pub closed spec fn subscription(&self) -> Subscription {
        self.event_queue
    }

    /// The movement intents.
    pub closed spec fn controls(&self) -> Controls {
        self.controls
    }

    /// Where the pointer was when the camera last rotated.
    pub closed spec fn pointer(&self) -> (i32, i32) {
        self.prev_mouse_pos
    }

    /// A camera at rest that drains the mailbox `e_que`.
    pub fn new(e_que: Subscription) -> (camera: Camera)
        ensures
            camera.subscription() == e_que,
            camera.controls() == Controls::idle(),
            camera.pointer() == (0i32, 0i32),
    {
        Camera {
            event_queue: e_que,
            prev_mouse_pos: (0, 0),
            controls: Controls {
                moving_up: false,
                moving_down: false,
                moving_forward: false,
                moving_backward: false,
                moving_left: false,
                moving_right: false,
                moving_rotating: false,
            },
        }
    }

    pub fn get_controls(&self) -> (controls: Controls)
        ensures
            controls == self.controls(),
    {
        self.controls
    }

    /// Takes note of a key or button event.
    pub fn process_input(&mut self, event: &InputEvent)
        ensures
            final(self).controls() == old(self).controls().after(*event),
            final(self).pointer() == old(self).pointer(),
            final(self).subscription() == old(self).subscription(),
    {
        match event {
            InputEvent::KeyboardInput(state, key) => {
                let held = match state {
                    ElementState::Pressed => true,
                    ElementState::Released => false,
                };
                match key {
                    Key::Space => {
                        self.controls.moving_up = held;
                    },
                    Key::Down => {
                        self.controls.moving_down = held;
                    },
                    Key::A => {
                        self.controls.moving_left = held;
                    },
                    Key::D => {
                        self.controls.moving_right = held;
                    },
                    Key::W => {
                        self.controls.moving_forward = held;
                    },
                    Key::S => {
                        self.controls.moving_backward = held;
                    },
                    _ => {},
                }
            },
            InputEvent::MouseInput(state, MouseButton::Left) => {
                self.controls.moving_rotating = match state {
                    ElementState::Pressed => true,
                    ElementState::Released => false,
                };
            },
            _ => {},
        }
    }

    /// The movement the intents ask for, as steps along the camera's right,
    /// up and forward axes.
    pub fn handle_input(&self) -> (steps: (i8, i8, i8))
        ensures
            steps.0 == self.controls().right(),
            steps.1 == self.controls().up(),
            steps.2 == self.controls().forward(),
    {
        (
            steps_along(self.controls.moving_right, self.controls.moving_left),
            steps_along(self.controls.moving_up, self.controls.moving_down),
            steps_along(self.controls.moving_forward, self.controls.moving_backward),
        )
    }

    /// Runs the camera's part of a frame: drains the camera's mailbox, and
    /// says how the pose is to change. While rotating, the pointer's movement
    /// since the last update is handed out and the pointer's new position is
    /// remembered; the pointer is where `event` moved it, if it did.
    pub fn update(&mut self, bus: &mut EventBus, event: &InputEvent) -> (step: CameraStep)
        ensures
            final(bus)@ == drained(old(bus)@, old(self).subscription().index()),
            step.position_commands@ == position_commands(
                drained_events(old(bus)@, old(self).subscription().index()),
            ),
            step.turn == turn_of(old(self).controls(), old(self).pointer(), *event),
            step.right == old(self).controls().right(),
            step.up == old(self).controls().up(),
            step.forward == old(self).controls().forward(),
            final(self).controls() == old(self).controls(),
            final(self).subscription() == old(self).subscription(),
            final(self).pointer() == pointer_kept(
                old(self).controls(),
                old(self).pointer(),
                *event,
            ),
    {
        let events = bus.drain(&self.event_queue);
        let position_commands = collect_position_commands(&events);
        let cur_mouse_pos = match event {
            InputEvent::MouseMoved(x, y) => (*x, *y),
            _ => self.prev_mouse_pos,
        };
        let mut turn: Option<(i64, i64)> = None;
        if self.controls.moving_rotating {
            let dx: i64 = cur_mouse_pos.0 as i64 - self.prev_mouse_pos.0 as i64;
            let dy: i64 = cur_mouse_pos.1 as i64 - self.prev_mouse_pos.1 as i64;
            turn = Some((dx, dy));
            self.prev_mouse_pos = cur_mouse_pos;
        }
        let (right, up, forward) = self.handle_input();
        CameraStep { position_commands, turn, right, up, forward }
    }
}

/// Computes `axis`.
fn steps_along(towards: bool, away: bool) -> (steps: i8)
    ensures
        steps == axis(towards, away),
{
    let gained: i8 = if towards { 1 } else { 0 };
    let lost: i8 = if away { 1 } else { 0 };
    gained - lost
}

/// Picks the camera-position commands out of drained events.
fn collect_position_commands(events: &Vec<Event>) -> (positions: Vec<(Scalar, Scalar)>)
    ensures
        positions@ == position_commands(events@),
{
    let mut positions: Vec<(Scalar, Scalar)> = Vec::new();
    let mut i: usize = 0;
    while i < events.len()
        invariant
            i <= events.len(),
            positions@ == position_commands(events@.subrange(0, i as int)),
        decreases events.len() - i,
    {
        proof {
            let upto = events@.subrange(0, i + 1);
            assert(upto.drop_last() =~= events@.subrange(0, i as int));
            assert(upto.last() == events@[i as int]);
        }
        match &events[i] {
            Event::SetCameraPos(x, y) => {
                positions.push((*x, *y));
            },
            _ => {},
        }
        i += 1;
    }
    assert(events@.subrange(0, i as int) =~= events@);
    positions
}

/// A flag follows its key: whatever was held before, after a press and a
/// release of the same key the intents are what the release alone leaves,
/// and a press repeated changes nothing more.
pub proof fn lemma_flags_follow_keys(controls: Controls, key: Key)
    ensures
        controls.after(InputEvent::KeyboardInput(ElementState::Pressed, key)).after(
            InputEvent::KeyboardInput(ElementState::Released, key),
        ) == controls.after(InputEvent::KeyboardInput(ElementState::Released, key)),
        controls.after(InputEvent::KeyboardInput(ElementState::Pressed, key)).after(
            InputEvent::KeyboardInput(ElementState::Pressed, key),
        ) == controls.after(InputEvent::KeyboardInput(ElementState::Pressed, key)),
{
}

/// Opposing intents cancel: with both keys of an axis held the camera does
/// not move along it. With exactly the forward key held it moves one step
/// along its forward axis and along no other.
pub proof fn lemma_movement_composition(controls: Controls)
    ensures
        controls.moving_forward && controls.moving_backward ==> controls.forward() == 0,
        controls.moving_left && controls.moving_right ==> controls.right() == 0,
        controls.moving_up && controls.moving_down ==> controls.up() == 0,
        controls == (Controls { moving_forward: true, ..Controls::idle() }) ==> controls.right()
            == 0 && controls.up() == 0 && controls.forward() == 1,
        -1 <= controls.right() <= 1,
        -1 <= controls.up() <= 1,
        -1 <= controls.forward() <= 1,
{
}

} // verus!
