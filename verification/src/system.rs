//! The demo's components, wired to one bus, and the start of a frame.
//!
//! Three mailboxes are registered before the bus is built: the console
//! listens to every topic, the renderer to render commands, the camera to
//! entity commands. A frame begins by ticking the clock, deciding whether
//! the demo goes on, and letting the camera take the frame's input; the
//! console and the renderer then take their turns, called by whoever runs
//! the loop.

use crate::bus::drained;
use crate::bus::drained_events;
use crate::bus::fresh_mailbox;
use crate::bus::BusBuilder;
use crate::bus::EventBus;
use crate::bus::MailboxView;
use crate::camera::pointer_kept;
use crate::camera::position_commands;
use crate::camera::turn_of;
use crate::camera::Camera;
use crate::camera::CameraStep;
use crate::camera::Controls;
use crate::camera::InputEvent;
use crate::camera::Key;
use crate::console::builtin_commands;
use crate::console::CommandTable;
use crate::console::Console;
use crate::console::EntryView;
use crate::debug_info::DebugInfo;
use crate::deferred::DeferredLightSystem;
use crate::event::EventID;
use crate::frame_clock::FrameClock;
use crate::frame_clock::NEVER_TICKED;
use crate::logging::LogBuilder;
use crate::logging::Logger;
use vstd::prelude::*;

verus! {

/// Width of the window at start, in pixels.
pub const DEFAULT_WINDOW_WIDTH: u16 = 1200;

/// Height of the window at start, in pixels.
pub const DEFAULT_WINDOW_HEIGHT: u16 = 1000;

/// Every topic there is.
pub open spec fn all_topics() -> Set<EventID> {
    set![EventID::UIEvent, EventID::RenderEvent, EventID::WindowEvent, EventID::EntityEvent]
}

/// The mailboxes of the demo, as they are registered: the console's, the
/// renderer's, the camera's.
pub open spec fn wired_mailboxes() -> Seq<MailboxView> {
    seq![
        fresh_mailbox(all_topics()),
        fresh_mailbox(set![EventID::RenderEvent]),
        fresh_mailbox(set![EventID::EntityEvent]),
    ]
}

/// Whether an event ends the demo: the window was closed, or the escape key
/// was pressed or released.
pub open spec fn closes(event: InputEvent) -> bool {
    event is Closed || (event matches InputEvent::KeyboardInput(_, key) && key == Key::Escape)
}

/// Decides `closes`.
pub fn is_close_request(event: &InputEvent) -> (close: bool)
    ensures
        close == closes(*event),
{
    match event {
        InputEvent::Closed => true,
        InputEvent::KeyboardInput(_, Key::Escape) => true,
        _ => false,
    }
}

/// The components of the demo and the bus that connects them.
pub struct Core {
    pub bus: EventBus,
    pub console: Console,
    pub debug_info: DebugInfo,
    pub camera: Camera,
    pub renderer: DeferredLightSystem,
    pub frame_time: FrameClock,
    pub logger: Logger,
}

/// How a frame begins.
#[derive(Debug, Clone, PartialEq, Eq)]
pub enum Flow {
    /// The demo ends.
    Exit,
    /// The frame goes on; this is what it asks of the camera's pose.
    Run(CameraStep),
}

/// Builds the bus with the three mailboxes and the components in their
/// initial state.
pub fn init() -> (core: Core)
    ensures
        core.bus@ == wired_mailboxes(),
        core.console.subscription().index() == 0,
        core.renderer.subscription().index() == 1,
        core.camera.subscription().index() == 2,
        core.console.commands() == builtin_commands(),
        core.console.entries() == Seq::<EntryView>::empty(),
        core.console.input() == Seq::<char>::empty(),
        core.console.visible(),
        core.debug_info.visible(),
        core.camera.controls() == Controls::idle(),
        core.camera.pointer() == (0i32, 0i32),
        core.renderer.wf(),
        core.renderer.fxaa_enabled(),
        core.renderer.target_size() == (DEFAULT_WINDOW_WIDTH, DEFAULT_WINDOW_HEIGHT),
        core.frame_time.previous() == 0,
        core.frame_time.elapsed() == NEVER_TICKED,
        core.logger.publishing(),
{
    let mut builder = BusBuilder::new();
    let console_topics = [
        EventID::UIEvent,
        EventID::RenderEvent,
        EventID::WindowEvent,
        EventID::EntityEvent,
    ];
    let renderer_topics = [EventID::RenderEvent];
    let camera_topics = [EventID::EntityEvent];
    let console_sub = builder.subscribe(console_topics.as_slice());
    let renderer_sub = builder.subscribe(renderer_topics.as_slice());
    let cam_sub = builder.subscribe(camera_topics.as_slice());
    proof {
        assert(console_topics@.to_set() =~= all_topics()) by {
            assert(console_topics@[0] == EventID::UIEvent);
            assert(console_topics@[1] == EventID::RenderEvent);
            assert(console_topics@[2] == EventID::WindowEvent);
            assert(console_topics@[3] == EventID::EntityEvent);
        }
        assert(renderer_topics@.to_set() =~= set![EventID::RenderEvent]) by {
            assert(renderer_topics@[0] == EventID::RenderEvent);
        }
        assert(camera_topics@.to_set() =~= set![EventID::EntityEvent]) by {
            assert(camera_topics@[0] == EventID::EntityEvent);
        }
        assert(builder@ =~= wired_mailboxes());
    }
    let bus = builder.build();
    let mut log_builder = LogBuilder::new();
    log_builder.publisher();
    Core {
        bus,
        console: Console::new(CommandTable::builtin(), console_sub),
        debug_info: DebugInfo::new(),
        camera: Camera::new(cam_sub),
        renderer: DeferredLightSystem::new(
            renderer_sub,
            DEFAULT_WINDOW_WIDTH,
            DEFAULT_WINDOW_HEIGHT,
        ),
        frame_time: FrameClock::new(),
        logger: log_builder.build(),
    }
}

impl Core {
    /// Begins a frame. The clock ticks. The demo ends when the window has
    /// no geometry any more, or when the frame's event asks for it, which
    /// the camera still takes note of. Otherwise the camera runs its part
    /// of the frame with the event, or with none.
    pub fn begin_frame(&mut self, has_geometry: bool, event: Option<InputEvent>) -> (flow: Flow)
        ensures
            flow is Exit <==> !has_geometry || (event matches Some(e) && closes(e)),
            final(self).frame_time.follows(&old(self).frame_time),
            final(self).console == old(self).console,
            final(self).debug_info == old(self).debug_info,
            final(self).renderer == old(self).renderer,
            final(self).logger == old(self).logger,
            final(self).camera.subscription() == old(self).camera.subscription(),
            final(self).camera.controls() == (match event {
                Some(e) if has_geometry => old(self).camera.controls().after(e),
                _ => old(self).camera.controls(),
            }),
            flow is Exit ==> final(self).bus@ == old(self).bus@ && final(self).camera.pointer()
                == old(self).camera.pointer(),
            flow matches Flow::Run(step) ==> {
                let seen = match event {
                    Some(e) => e,
                    None => InputEvent::Other,
                };
                let mailbox = old(self).camera.subscription().index();
                &&& final(self).bus@ == drained(old(self).bus@, mailbox)
                &&& step.position_commands@ == position_commands(
                    drained_events(old(self).bus@, mailbox),
                )
                &&& step.turn == turn_of(
                    final(self).camera.controls(),
                    old(self).camera.pointer(),
                    seen,
                )
                &&& final(self).camera.pointer() == pointer_kept(
                    final(self).camera.controls(),
                    old(self).camera.pointer(),
                    seen,
                )
                &&& step.right == final(self).camera.controls().right()
                &&& step.up == final(self).camera.controls().up()
                &&& step.forward == final(self).camera.controls().forward()
            },
    {
        self.frame_time.tick();
        if !has_geometry {
            return Flow::Exit;
        }
        let seen = match event {
            Some(e) => {
                self.camera.process_input(&e);
                if is_close_request(&e) {
                    return Flow::Exit;
                }
                e
            },
            None => InputEvent::Other,
        };
        Flow::Run(self.camera.update(&mut self.bus, &seen))
    }
}

} // verus!
