//! The event projector: which subcommand a token names, which window-manager
//! events it listens to, and what each event makes the bar do.
use vstd::prelude::*;

use crate::text::same_text;
use crate::workspaces::format_window_line;

verus! {

/// The subcommands of the helper.
#[derive(Clone, Copy, Debug, PartialEq, Eq, Structural)]
pub enum Command {
    /// The active workspace, then each workspace change.
    Work,
    /// The active window's class, as it changes.
    Window,
    /// The battery bucket, once.
    Battery,
    /// The open-windows table, then again on each change of windows or workspaces.
    OpenWindows,
    /// The memory in use, once.
    Memory,
    /// An unknown token, or none: nothing is done.
    Nothing,
}

/// The subcommand that a token names.
pub open spec fn command_of(token: Seq<char>) -> Command {
    if token == "work"@ {
        Command::Work
    } else if token == "window"@ {
        Command::Window
    } else if token == "bat"@ {
        Command::Battery
    } else if token == "open_windows"@ {
        Command::OpenWindows
    } else if token == "mem"@ {
        Command::Memory
    } else {
        Command::Nothing
    }
}

/// Whether a subcommand goes on to listen for events after its first line.
pub open spec fn listens(c: Command) -> bool {
    c is Work || c is Window || c is OpenWindows
}

/// The kinds of window-manager event that the projector can listen to.
#[derive(Clone, Copy, Debug, PartialEq, Eq, Structural)]
pub enum EventKind {
    WorkspaceAdded,
    WorkspaceChanged,
    WorkspaceDestroyed,
    WindowOpened,
    WindowClosed,
    WindowMoved,
    WindowTitleChanged,
    ActiveMonitorChanged,
    ActiveWindowChanged,
}

/// The event kinds that a subcommand listens to, in the order it registers them.
pub open spec fn subscription_list(c: Command) -> Seq<EventKind> {
    match c {
        Command::Work => seq![EventKind::WorkspaceChanged],
        Command::Window => seq![EventKind::ActiveWindowChanged, EventKind::WindowClosed],
        Command::OpenWindows => seq![
            EventKind::WorkspaceAdded,
            EventKind::WorkspaceChanged,
            EventKind::WorkspaceDestroyed,
            EventKind::WindowOpened,
            EventKind::WindowClosed,
            EventKind::WindowMoved,
            EventKind::WindowTitleChanged,
            EventKind::ActiveMonitorChanged,
            EventKind::ActiveWindowChanged,
        ],
        _ => Seq::<EventKind>::empty(),
    }
}

/// Whether a subcommand listens to a kind of event.
pub open spec fn subscribed(c: Command, k: EventKind) -> bool {
    subscription_list(c).contains(k)
}

/// A window-manager event, with what the projector reads of its payload.
#[derive(Clone, Debug, PartialEq, Eq)]
pub enum Event {
    WorkspaceAdded,
    /// The workspace changed; it carries the new workspace's name.
    WorkspaceChanged(String),
    WorkspaceDestroyed,
    WindowOpened,
    WindowClosed,
    WindowMoved,
    WindowTitleChanged,
    ActiveMonitorChanged,
    /// The active window changed; it carries the new window's class, or
    /// nothing when no window is active.
    ActiveWindowChanged(Option<String>),
}

/// The kind of an event.
pub open spec fn event_kind(e: Event) -> EventKind {
    match e {
        Event::WorkspaceAdded => EventKind::WorkspaceAdded,
        Event::WorkspaceChanged(_) => EventKind::WorkspaceChanged,
        Event::WorkspaceDestroyed => EventKind::WorkspaceDestroyed,
        Event::WindowOpened => EventKind::WindowOpened,
        Event::WindowClosed => EventKind::WindowClosed,
        Event::WindowMoved => EventKind::WindowMoved,
        Event::WindowTitleChanged => EventKind::WindowTitleChanged,
        Event::ActiveMonitorChanged => EventKind::ActiveMonitorChanged,
        Event::ActiveWindowChanged(_) => EventKind::ActiveWindowChanged,
    }
}

/// What the caller does next: print a line, or query a source and print the
/// line that it gives.
#[derive(Clone, Debug, PartialEq, Eq)]
pub enum Action {
    /// Nothing is printed.
    Nothing,
    /// Print this line.
    Emit(String),
    /// Query the active workspace and print `format_workspace_line` of its id.
    ShowActiveWorkspace,
    /// Query the active window and print `desktop_line_after_close` of the answer.
    ShowDesktopIfNoWindow,
    /// Query all workspaces and print the open-windows table.
    ShowOpenWindows,
    /// Read the battery sensor and print `format_battery_text` of it.
    ShowBattery,
    /// Read the meminfo text and print `format_memory_line` of it.
    ShowMemory,
}

/// The text of the active window's line.
pub open spec fn window_text(class: Option<String>) -> Seq<char> {
    match class {
        Some(c) => c@,
        None => "Desktop"@,
    }
}

impl Command {
    /// The subcommand that a token names; any other token names `Nothing`.
    pub fn from_token(token: &str) -> (r: Command)
        ensures
            r == command_of(token@),
    {
        if same_text(token, "work") {
            Command::Work
        } else if same_text(token, "window") {
            Command::Window
        } else if same_text(token, "bat") {
            Command::Battery
        } else if same_text(token, "open_windows") {
            Command::OpenWindows
        } else if same_text(token, "mem") {
            Command::Memory
        } else {
            Command::Nothing
        }
    }

    /// Whether the subcommand goes on to listen for events.
    pub fn listens(&self) -> (r: bool)
        ensures
            r == listens(*self),
    {
        match self {
            Command::Work | Command::Window | Command::OpenWindows => true,
            _ => false,
        }
    }

    /// The event kinds that the subcommand listens to.
    pub fn subscriptions(&self) -> (r: Vec<EventKind>)
        ensures
            r@ == subscription_list(*self),
    {
        let r = match self {
            Command::Work => vec![EventKind::WorkspaceChanged],
            Command::Window => vec![EventKind::ActiveWindowChanged, EventKind::WindowClosed],
            Command::OpenWindows => vec![
                EventKind::WorkspaceAdded,
                EventKind::WorkspaceChanged,
                EventKind::WorkspaceDestroyed,
                EventKind::WindowOpened,
                EventKind::WindowClosed,
                EventKind::WindowMoved,
                EventKind::WindowTitleChanged,
                EventKind::ActiveMonitorChanged,
                EventKind::ActiveWindowChanged,
            ],
            _ => Vec::new(),
        };
        assert(r@ =~= subscription_list(*self));
        r
    }
}

impl Event {
    /// The kind of the event.
    pub fn kind(&self) -> (r: EventKind)
        ensures
            r == event_kind(*self),
    {
        match self {
            Event::WorkspaceAdded => EventKind::WorkspaceAdded,
            Event::WorkspaceChanged(_) => EventKind::WorkspaceChanged,
            Event::WorkspaceDestroyed => EventKind::WorkspaceDestroyed,
            Event::WindowOpened => EventKind::WindowOpened,
            Event::WindowClosed => EventKind::WindowClosed,
            Event::WindowMoved => EventKind::WindowMoved,
            Event::WindowTitleChanged => EventKind::WindowTitleChanged,
            Event::ActiveMonitorChanged => EventKind::ActiveMonitorChanged,
            Event::ActiveWindowChanged(_) => EventKind::ActiveWindowChanged,
        }
    }
}

/// The projector for one subcommand: idle until started, then listening for
/// good.
#[derive(Clone, Copy, Debug, PartialEq, Eq, Structural)]
pub struct Projector {
    pub command: Command,
    pub listening: bool,
}

/// The first action of a subcommand, when it is started.
pub open spec fn first_action(c: Command) -> Action {
    match c {
        Command::Work => Action::ShowActiveWorkspace,
        Command::Window => Action::Nothing,
        Command::Battery => Action::ShowBattery,
        Command::OpenWindows => Action::ShowOpenWindows,
        Command::Memory => Action::ShowMemory,
        Command::Nothing => Action::Nothing,
    }
}

/// `OpenWindows` listens to every kind of event there is.
pub proof fn open_windows_listens_to_every_kind(k: EventKind)
    ensures
        subscribed(Command::OpenWindows, k),
{
    let l = subscription_list(Command::OpenWindows);
    let i: int = match k {
        EventKind::WorkspaceAdded => 0,
        EventKind::WorkspaceChanged => 1,
        EventKind::WorkspaceDestroyed => 2,
        EventKind::WindowOpened => 3,
        EventKind::WindowClosed => 4,
        EventKind::WindowMoved => 5,
        EventKind::WindowTitleChanged => 6,
        EventKind::ActiveMonitorChanged => 7,
        EventKind::ActiveWindowChanged => 8,
    };
    assert(l[i] == k);
}

impl Projector {
    /// An idle projector for a subcommand.
    pub fn new(command: Command) -> (r: Projector)
        ensures
            r.command == command,
            !r.listening,
    {
        Projector { command, listening: false }
    }

    /// The projector for the subcommand that a token names.
    pub fn from_token(token: &str) -> (r: Projector)
        ensures
            r.command == command_of(token@),
            !r.listening,
    {
        Projector::new(Command::from_token(token))
    }

    /// Starts the projector: an idle one gives its subcommand's first action,
    /// and listens from then on where the subcommand does. A started one
    /// stays as it is and does nothing.
    pub fn start(&mut self) -> (r: Action)
        ensures
            final(self).command == old(self).command,
            !old(self).listening ==> r == first_action(old(self).command)
                && final(self).listening == listens(old(self).command),
            old(self).listening ==> r is Nothing && final(self).listening,
    {
        if self.listening {
            return Action::Nothing;
        }
        self.listening = self.command.listens();
        match self.command {
            Command::Work => Action::ShowActiveWorkspace,
            Command::Window => Action::Nothing,
            Command::Battery => Action::ShowBattery,
            Command::OpenWindows => Action::ShowOpenWindows,
            Command::Memory => Action::ShowMemory,
            Command::Nothing => Action::Nothing,
        }
    }

    /// What an event makes a listening projector do. A workspace change under
    /// `Work` prints the new workspace's name. Under `Window`, an active-window
    /// change prints the new class, or `Desktop`, and a window's closing asks
    /// whether any window is left. Under `OpenWindows`, each of its nine kinds
    /// of event prints the table afresh. Anything else, and any event before
    /// the projector listens, does nothing.
    pub fn handle(&self, event: &Event) -> (r: Action)
        ensures
            !self.listening || !subscribed(self.command, event_kind(*event)) ==> r is Nothing,
            self.listening && self.command is Work ==> match *event {
                Event::WorkspaceChanged(name) => (r matches Action::Emit(line) && line@ == name@),
                _ => r is Nothing,
            },
            self.listening && self.command is Window ==> match *event {
                Event::ActiveWindowChanged(class) => (r matches Action::Emit(line) && line@
                    == window_text(class)),
                Event::WindowClosed => r is ShowDesktopIfNoWindow,
                _ => r is Nothing,
            },
            self.listening && self.command is OpenWindows ==> r is ShowOpenWindows,
    {
        proof {
            assert(subscription_list(Command::Work)[0] == EventKind::WorkspaceChanged);
            assert(subscription_list(Command::Window)[0] == EventKind::ActiveWindowChanged);
            assert(subscription_list(Command::Window)[1] == EventKind::WindowClosed);
            open_windows_listens_to_every_kind(event_kind(*event));
        }
        if !self.listening {
            return Action::Nothing;
        }
        match self.command {
            Command::Work => match event {
                Event::WorkspaceChanged(name) => Action::Emit(name.clone()),
                _ => Action::Nothing,
            },
            Command::Window => match event {
                Event::ActiveWindowChanged(class) => Action::Emit(format_window_line(class.clone())),
                Event::WindowClosed => Action::ShowDesktopIfNoWindow,
                _ => Action::Nothing,
            },
            Command::OpenWindows => Action::ShowOpenWindows,
            _ => Action::Nothing,
        }
    }
}

/// The line printed after a window closed, once the active window has been
/// queried again: `Desktop` where no window is active, else nothing.
pub fn desktop_line_after_close(window_active: bool) -> (r: Option<String>)
    ensures
        window_active ==> r is None,
        !window_active ==> (r matches Some(line) && line@ == "Desktop"@),
{
    if window_active {
        None
    } else {
        Some(String::from_str("Desktop"))
    }
}

} // verus!
