//! The developer console: a bounded log of lines and a command line.
//!
//! The log keeps the newest line first and, once full, drops the oldest line
//! for every new one. A line typed into the command line is looked up in the
//! table of commands the console was built with: a known command is
//! published on the bus, an unknown one is answered with a warning in the
//! log. Drawing the console is the caller's part.

use crate::bus::delivered;
use crate::bus::drained;
use crate::bus::drained_events;
use crate::bus::EventBus;
use crate::bus::Subscription;
use crate::colors::light_red;
use crate::colors::light_yellow;
use crate::colors::white;
use crate::colors::Color;
use crate::event::ConsoleLogLevel;
use crate::event::Event;
use crate::event::EventID;
use std::collections::VecDeque;
use vstd::prelude::*;
use vstd::string::StringExecFns;

verus! {

/// Number of lines the log keeps.
pub const CONSOLE_CAPACITY: usize = 100;

impl ConsoleLogLevel {
    /// The colour lines of this severity are shown in.
    pub open spec fn color(&self) -> Color {
        match self {
            ConsoleLogLevel::INFO => white(),
            ConsoleLogLevel::WARNING => light_yellow(),
            ConsoleLogLevel::ERROR => light_red(),
        }
    }

    #[verifier::when_used_as_spec(color)]
    pub fn value(&self) -> (color: Color)
        ensures
            color == self.color(),
    {
        match self {
            ConsoleLogLevel::INFO => white(),
            ConsoleLogLevel::WARNING => light_yellow(),
            ConsoleLogLevel::ERROR => light_red(),
        }
    }
}

/// A line of the log as its readers see it.
pub struct EntryView {
    pub text: Seq<char>,
    pub level: ConsoleLogLevel,
}

/// A line of the log.
#[derive(Debug)]
pub struct ConsoleEntry {
    text: String,
    level: ConsoleLogLevel,
}

impl View for ConsoleEntry {
    type V = EntryView;

    closed spec fn view(&self) -> EntryView {
        EntryView { text: self.text@, level: self.level }
    }
}

impl ConsoleEntry {
    pub fn get_text(&self) -> (text: &str)
        ensures
            text@ == self@.text,
    {
        self.text.as_str()
    }

    pub fn get_level(&self) -> (level: ConsoleLogLevel)
        ensures
            level == self@.level,
    {
        self.level
    }
}

/// A command as its users see it: the word that invokes it, and the event it
/// publishes under a topic.
pub struct CommandView {
    pub name: Seq<char>,
    pub topic: EventID,
    pub event: Event,
}

/// A command of the console.
pub struct Command {
    name: String,
    topic: EventID,
    event: Event,
}

impl View for Command {
    type V = CommandView;

    closed spec fn view(&self) -> CommandView {
        CommandView { name: self.name@, topic: self.topic, event: self.event }
    }
}

/// What the first of the commands from position `start` on that is invoked
/// by `name` publishes; `None` when there is none.
pub open spec fn lookup_from(commands: Seq<CommandView>, name: Seq<char>, start: int) -> Option<
    (EventID, Event),
>
    decreases commands.len() - start,
{
    if start < 0 || start >= commands.len() {
        None
    } else if commands[start].name == name {
        Some((commands[start].topic, commands[start].event))
    } else {
        lookup_from(commands, name, start + 1)
    }
}

/// What the command invoked by `name` publishes; `None` for an unknown name.
pub open spec fn lookup(commands: Seq<CommandView>, name: Seq<char>) -> Option<(EventID, Event)> {
    lookup_from(commands, name, 0)
}

/// The commands every console knows: `reload` asks the renderer to reload its
/// shaders, `wireframe` asks it to toggle wireframe mode, `close` hides or
/// shows the console.
pub open spec fn builtin_commands() -> Seq<CommandView> {
    seq![
        CommandView { name: "reload"@, topic: EventID::RenderEvent, event: Event::ReloadShaders },
        CommandView {
            name: "wireframe"@,
            topic: EventID::RenderEvent,
            event: Event::ToggleWireframe,
        },
        CommandView { name: "close"@, topic: EventID::UIEvent, event: Event::ToggleConsole },
    ]
}

/// What the built-in commands answer to a word: each of the three words
/// publishes its event under its topic, every other word is unknown.
pub proof fn lemma_builtin_lookup(name: Seq<char>)
    ensures
        lookup(builtin_commands(), name) == (if name == "reload"@ {
            Some((EventID::RenderEvent, Event::ReloadShaders))
        } else if name == "wireframe"@ {
            Some((EventID::RenderEvent, Event::ToggleWireframe))
        } else if name == "close"@ {
            Some((EventID::UIEvent, Event::ToggleConsole))
        } else {
            None
        }),
        "reload"@ != "wireframe"@,
        "reload"@ != "close"@,
        "wireframe"@ != "close"@,
{
    reveal_with_fuel(lookup_from, 4);
    reveal_strlit("reload");
    reveal_strlit("wireframe");
    reveal_strlit("close");
    assert("reload"@[0] == 'r' && "wireframe"@[0] == 'w' && "close"@[0] == 'c');
}

/// An immutable table of commands.
pub struct CommandTable {
    commands: Vec<Command>,
}

impl View for CommandTable {
    type V = Seq<CommandView>;

    closed spec fn view(&self) -> Seq<CommandView> {
        Seq::new(self.commands@.len(), |i: int| self.commands@[i]@)
    }
}

impl CommandTable {
    /// The table of the built-in commands.
    pub fn builtin() -> (table: CommandTable)
        ensures
            table@ == builtin_commands(),
    {
        let mut commands: Vec<Command> = Vec::new();
        commands.push(
            Command {
                name: "reload".to_owned(),
                topic: EventID::RenderEvent,
                event: Event::ReloadShaders,
            },
        );
        commands.push(
            Command {
                name: "wireframe".to_owned(),
                topic: EventID::RenderEvent,
                event: Event::ToggleWireframe,
            },
        );
        commands.push(
            Command { name: "close".to_owned(), topic: EventID::UIEvent, event: Event::ToggleConsole },
        );
        let table = CommandTable { commands };
        assert(table@ =~= builtin_commands());
        table
    }

    /// Looks a word up.
    pub fn lookup(&self, name: &str) -> (found: Option<(EventID, Event)>)
        ensures
            found == lookup(self@, name@),
    {
        let wanted = name.to_owned();
        let mut i: usize = 0;
        while i < self.commands.len()
            invariant
                i <= self.commands.len(),
                wanted@ == name@,
                lookup(self@, name@) == lookup_from(self@, name@, i as int),
            decreases self.commands.len() - i,
        {
            if self.commands[i].name == wanted {
                return Some((self.commands[i].topic, self.commands[i].event.duplicate()));
            }
            i += 1;
        }
        None
    }
}

/// The log after a line was added: the new line first, then the lines there
/// were, without the oldest if the log was full.
pub open spec fn logged(entries: Seq<EntryView>, entry: EntryView) -> Seq<EntryView> {
    if entries.len() >= CONSOLE_CAPACITY {
        seq![entry] + entries.drop_last()
    } else {
        seq![entry] + entries
    }
}

/// The `k`-th of the printed numbers; empty where there are fewer.
pub open spec fn figure(figures: Seq<String>, k: int) -> Seq<char> {
    if 0 <= k < figures.len() {
        figures[k]@
    } else {
        Seq::empty()
    }
}

/// How a truth value is printed.
pub open spec fn truth(value: bool) -> Seq<char> {
    if value {
        "true"@
    } else {
        "false"@
    }
}

/// The line the console logs for an event. `figures` are the numbers the
/// event carries, already printed.
pub open spec fn line_for(event: Event, figures: Seq<String>) -> EntryView {
    match event {
        Event::ConsoleMessage(text, level) => EntryView { text: text@, level },
        Event::ReloadShaders => info("Reloading shaders..."@),
        Event::ToggleWireframe => info("Toggled wireframe mode..."@),
        Event::SetWindowSize(_, _) => info(
            "Setting window size to w: "@ + figure(figures, 0) + " h: "@ + figure(figures, 1),
        ),
        Event::ToggleFullscreen => info("Toggle Fullscreen"@),
        Event::ToggleVSync => info("Toggle Vertical Sync"@),
        Event::SetCameraPos(_, _) => info(
            "Moved Camera to x: "@ + figure(figures, 0) + " y: "@ + figure(figures, 1),
        ),
        Event::ToggleConsole => info("INFO: Toggle console visibility"@),
        Event::SetClearColor(_, _, _) => info(
            "INFO: SetClearColor("@ + figure(figures, 0) + ", "@ + figure(figures, 1) + ", "@
                + figure(figures, 2) + ")"@,
        ),
        Event::ToggleFXAA => info("INFO: ToggleFXAA"@),
        Event::MoveCamera(a, b, c, d) => info(
            "INFO: MoveCamera("@ + truth(a) + ", "@ + truth(b) + ", "@ + truth(c) + ", "@ + truth(
                d,
            ) + ")"@,
        ),
    }
}

/// An informational line.
pub open spec fn info(text: Seq<char>) -> EntryView {
    EntryView { text, level: ConsoleLogLevel::INFO }
}

/// The warning that answers an unknown command.
pub open spec fn command_not_found(name: Seq<char>) -> EntryView {
    EntryView { text: "Command not found: "@ + name, level: ConsoleLogLevel::WARNING }
}

/// The console's state.
pub struct Console {
    buffer: VecDeque<ConsoleEntry>,
    text_field_buffer: String,
    commands: CommandTable,
    event_queue: Subscription,
    visible: bool,
}

impl Console {
    /// The lines of the log, newest first.
    pub closed spec fn entries(&self) -> Seq<EntryView> {
        Seq::new(self.buffer@.len(), |i: int| self.buffer@[i]@)
    }

    /// What is typed into the command line.
    pub closed spec fn input(&self) -> Seq<char> {
        self.text_field_buffer@
    }

    /// The commands the console knows.
    pub closed spec fn commands(&self) -> Seq<CommandView> {
        self.commands@
    }

    /// The mailbox the console drains.
    pub closed spec fn subscription(&self) -> Subscription {
        self.event_queue
    }

    /// Whether the console is shown.
    pub closed spec fn visible(&self) -> bool {
        self.visible
    }

    /// Everything but the log is the same in both consoles.
    pub open spec fn same_but_log(&self, other: &Console) -> bool {
        &&& self.input() == other.input()
        &&& self.commands() == other.commands()
        &&& self.subscription() == other.subscription()
        &&& self.visible() == other.visible()
    }

    /// A visible console with an empty log and an empty command line, which
    /// knows `commands` and drains the mailbox `e_que`.
    pub fn new(commands: CommandTable, e_que: Subscription) -> (console: Console)
        ensures
            console.entries() == Seq::<EntryView>::empty(),
            console.input() == Seq::<char>::empty(),
            console.commands() == commands@,
            console.subscription() == e_que,
            console.visible(),
    {
        let console = Console {
            buffer: VecDeque::with_capacity(CONSOLE_CAPACITY),
            text_field_buffer: String::new(),
            commands,
            event_queue: e_que,
            visible: true,
        };
        assert(console.entries() =~= Seq::<EntryView>::empty());
        console
    }

    /// Shows the console if it is hidden, hides it if it is shown.
    pub fn toggle_visible(&mut self)
        ensures
            final(self).visible() == !old(self).visible(),
            final(self).entries() == old(self).entries(),
            final(self).input() == old(self).input(),
            final(self).commands() == old(self).commands(),
            final(self).subscription() == old(self).subscription(),
    {
        self.visible = !self.visible;
    }

    /// Adds a line to the log.
    pub fn add_entry(&mut self, entry: String, level: ConsoleLogLevel)
        ensures
            final(self).entries() == logged(old(self).entries(), EntryView { text: entry@, level }),
            final(self).same_but_log(old(self)),
    {
        if self.buffer.len() >= CONSOLE_CAPACITY {
            self.buffer.pop_back();
        }
        let new_entry = ConsoleEntry { text: entry, level };
        self.buffer.push_front(new_entry);
        assert(self.entries() =~= logged(old(self).entries(), EntryView { text: entry@, level }));
    }

    /// Runs a line of the command line: publishes what a known command
    /// stands for, or logs a warning that names the unknown word.
    pub fn process_command(&mut self, bus: &mut EventBus, cmd: &str)
        ensures
            final(self).same_but_log(old(self)),
            match lookup(old(self).commands(), cmd@) {
                Some((topic, event)) => {
                    &&& final(bus)@ == delivered(old(bus)@, topic, event)
                    &&& final(self).entries() == old(self).entries()
                },
                None => {
                    &&& final(bus)@ == old(bus)@
                    &&& final(self).entries() == logged(
                        old(self).entries(),
                        command_not_found(cmd@),
                    )
                },
            },
    {
        match self.commands.lookup(cmd) {
            Some((topic, event)) => {
                bus.publish(topic, event);
            },
            None => {
                let text = "Command not found: ".to_owned().concat(cmd);
                self.add_entry(text, ConsoleLogLevel::WARNING);
            },
        }
    }

    /// Replaces what is typed into the command line.
    pub fn edit(&mut self, text: String)
        ensures
            final(self).input() == text@,
            final(self).entries() == old(self).entries(),
            final(self).commands() == old(self).commands(),
            final(self).subscription() == old(self).subscription(),
            final(self).visible() == old(self).visible(),
    {
        self.text_field_buffer = text;
    }

    /// Enters the command line: runs what is typed, unless nothing is, and
    /// clears the line.
    pub fn submit(&mut self, bus: &mut EventBus)
        ensures
            final(self).input() == Seq::<char>::empty(),
            final(self).commands() == old(self).commands(),
            final(self).subscription() == old(self).subscription(),
            final(self).visible() == old(self).visible(),
            if old(self).input().len() == 0 {
                &&& final(bus)@ == old(bus)@
                &&& final(self).entries() == old(self).entries()
            } else {
                match lookup(old(self).commands(), old(self).input()) {
                    Some((topic, event)) => {
                        &&& final(bus)@ == delivered(old(bus)@, topic, event)
                        &&& final(self).entries() == old(self).entries()
                    },
                    None => {
                        &&& final(bus)@ == old(bus)@
                        &&& final(self).entries() == logged(
                            old(self).entries(),
                            command_not_found(old(self).input()),
                        )
                    },
                }
            },
    {
        let current = self.text_field_buffer.clone();
        if current.as_str().unicode_len() != 0 {
            self.process_command(bus, current.as_str());
        }
        self.text_field_buffer = String::new();
    }

    /// Takes what the console's mailbox has received since the last frame.
    pub fn fetch(&mut self, bus: &mut EventBus) -> (events: Vec<Event>)
        ensures
            events@ == drained_events(old(bus)@, old(self).subscription().index()),
            final(bus)@ == drained(old(bus)@, old(self).subscription().index()),
            final(self).entries() == old(self).entries(),
            final(self).same_but_log(old(self)),
    {
        bus.drain(&self.event_queue)
    }

    /// Logs the line for an event; a command to toggle the console also
    /// shows or hides it. `figures` are the numbers the event carries,
    /// printed in decimal.
    pub fn handle_event(&mut self, event: &Event, figures: &Vec<String>)
        ensures
            final(self).entries() == logged(old(self).entries(), line_for(*event, figures@)),
            final(self).visible() == (if *event is ToggleConsole {
                !old(self).visible()
            } else {
                old(self).visible()
            }),
            final(self).input() == old(self).input(),
            final(self).commands() == old(self).commands(),
            final(self).subscription() == old(self).subscription(),
    {
        match event {
            Event::ConsoleMessage(text, level) => {
                self.add_entry(text.clone(), *level);
            },
            Event::ReloadShaders => {
                self.add_entry("Reloading shaders...".to_owned(), ConsoleLogLevel::INFO);
            },
            Event::ToggleWireframe => {
                self.add_entry("Toggled wireframe mode...".to_owned(), ConsoleLogLevel::INFO);
            },
            Event::SetWindowSize(_, _) => {
                let text = "Setting window size to w: ".to_owned().concat(
                    printed(figures, 0).as_str(),
                ).concat(" h: ").concat(printed(figures, 1).as_str());
                self.add_entry(text, ConsoleLogLevel::INFO);
            },
            Event::ToggleFullscreen => {
                self.add_entry("Toggle Fullscreen".to_owned(), ConsoleLogLevel::INFO);
            },
            Event::ToggleVSync => {
                self.add_entry("Toggle Vertical Sync".to_owned(), ConsoleLogLevel::INFO);
            },
            Event::SetCameraPos(_, _) => {
                let text = "Moved Camera to x: ".to_owned().concat(
                    printed(figures, 0).as_str(),
                ).concat(" y: ").concat(printed(figures, 1).as_str());
                self.add_entry(text, ConsoleLogLevel::INFO);
            },
            Event::ToggleConsole => {
                self.add_entry("INFO: Toggle console visibility".to_owned(), ConsoleLogLevel::INFO);
                self.toggle_visible();
            },
            Event::SetClearColor(_, _, _) => {
                let text = "INFO: SetClearColor(".to_owned().concat(
                    printed(figures, 0).as_str(),
                ).concat(", ").concat(printed(figures, 1).as_str()).concat(", ").concat(
                    printed(figures, 2).as_str(),
                ).concat(")");
                self.add_entry(text, ConsoleLogLevel::INFO);
            },
            Event::ToggleFXAA => {
                self.add_entry("INFO: ToggleFXAA".to_owned(), ConsoleLogLevel::INFO);
            },
            Event::MoveCamera(a, b, c, d) => {
                let text = "INFO: MoveCamera(".to_owned().concat(print_truth(*a)).concat(
                    ", ",
                ).concat(print_truth(*b)).concat(", ").concat(print_truth(*c)).concat(", ").concat(
                    print_truth(*d),
                ).concat(")");
                self.add_entry(text, ConsoleLogLevel::INFO);
            },
        }
    }

    pub fn is_visible(&self) -> (visible: bool)
        ensures
            visible == self.visible(),
    {
        self.visible
    }

    pub fn get_input(&self) -> (text: &str)
        ensures
            text@ == self.input(),
    {
        self.text_field_buffer.as_str()
    }

    /// Number of lines in the log.
    pub fn len(&self) -> (count: usize)
        ensures
            count == self.entries().len(),
    {
        self.buffer.len()
    }

    /// The `i`-th line of the log, counted from the newest.
    pub fn get_entry(&self, i: usize) -> (entry: Option<&ConsoleEntry>)
        ensures
            entry.is_some() == (i < self.entries().len()),
            entry matches Some(e) ==> e@ == self.entries()[i as int],
    {
        if i < self.buffer.len() {
            Some(&self.buffer[i])
        } else {
            None
        }
    }
}

/// Computes `figure`.
fn printed(figures: &Vec<String>, k: usize) -> (text: String)
    ensures
        text@ == figure(figures@, k as int),
{
    if k < figures.len() {
        figures[k].clone()
    } else {
        String::new()
    }
}

/// Computes `truth`.
fn print_truth(value: bool) -> (text: &'static str)
    ensures
        text@ == truth(value),
{
    if value {
        "true"
    } else {
        "false"
    }
}

/// A log that holds no more lines than its capacity still does after a line
/// was added, and the added line is its newest.
pub proof fn lemma_log_is_bounded(entries: Seq<EntryView>, entry: EntryView)
    requires
        entries.len() <= CONSOLE_CAPACITY,
    ensures
        logged(entries, entry).len() <= CONSOLE_CAPACITY,
        logged(entries, entry).len() == if entries.len() == CONSOLE_CAPACITY {
            entries.len()
        } else {
            entries.len() + 1
        },
        logged(entries, entry)[0] == entry,
        forall|k: int|
            1 <= k < logged(entries, entry).len() ==> #[trigger] logged(entries, entry)[k]
                == entries[k - 1],
{
}

} // verus!
