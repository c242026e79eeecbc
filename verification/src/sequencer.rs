//! The window sequencer: from a hidden start, through the splash window, to
//! the main window.
//!
//! The sequencer owns no window. It is told what happened (a timer ran out,
//! the front end reported that it is ready) and answers with the steps that
//! the shell has to carry out on the windows, in order.

use vstd::prelude::*;

verus! {

/// The two windows of the shell.
#[derive(Clone, Copy, Debug, PartialEq, Eq, Structural)]
pub enum Window {
    Splash,
    Main,
}

impl Window {
    /// The label under which the shell's window configuration declares the
    /// window.
    pub open spec fn label_of(self) -> Seq<char> {
        match self {
            Window::Splash => "splashscreen"@,
            Window::Main => "main"@,
        }
    }

    /// The label under which the shell finds the window.
    pub fn label(&self) -> (label: &'static str)
        ensures
            label@ == self.label_of(),
    {
        match self {
            Window::Splash => "splashscreen",
            Window::Main => "main",
        }
    }
}

/// The two delays that the sequence waits for.
#[derive(Clone, Copy, Debug, PartialEq, Eq, Structural)]
pub enum Timer {
    /// Runs from setup until the splash window may appear.
    SplashShow,
    /// Runs from a readiness signal until the main window takes over.
    MainReveal,
}

/// Where the sequence stands.
#[derive(Clone, Copy, Debug, PartialEq, Eq, Structural)]
pub enum Phase {
    /// Neither window is visible.
    Hidden,
    /// The splash window is visible, the main window is not.
    SplashVisible,
    /// The main window is visible and the splash window is closed.
    MainVisible,
}

/// One step for the shell to carry out.
#[derive(Clone, Copy, Debug, PartialEq, Eq, Structural)]
pub enum Action {
    /// Keep the window's logical size at or above `width` by `height`.
    EnforceMinSize { window: Window, width: u32, height: u32 },
    /// Center the window on its screen.
    Center { window: Window },
    /// Make the window visible.
    Show { window: Window },
    /// Close the window for good.
    Close { window: Window },
    /// Start `timer`; it reports back once `delay_ms` milliseconds have passed.
    StartTimer { timer: Timer, delay_ms: u64 },
    /// Start listening for the front end's readiness signal.
    ListenForReady,
}

/// What the shell reports to the sequencer.
#[derive(Clone, Copy, Debug, PartialEq, Eq, Structural)]
pub enum Event {
    /// The front end has signalled that it is ready.
    FrontendReady,
    /// A timer that was started has run out.
    TimerElapsed { timer: Timer },
}

/// Why setup could not go ahead.
#[derive(Clone, Copy, Debug, PartialEq, Eq, Structural)]
pub enum SetupError {
    /// The shell has no window under this window's label.
    MissingWindow { window: Window },
}

impl SetupError {
    /// The window that the error is about.
    pub open spec fn window(self) -> Window {
        match self {
            SetupError::MissingWindow { window } => window,
        }
    }
}

/// Name of the signal by which the front end reports that it is ready.
pub const READY_EVENT: &'static str = "frontend-ready";

/// Least logical width of the main window.
pub const MIN_WIDTH: u32 = 600;

/// Least logical height of the main window.
pub const MIN_HEIGHT: u32 = 400;

/// Milliseconds from setup until the splash window is shown.
pub const SPLASH_DELAY_MS: u64 = 200;

/// Milliseconds from a readiness signal until the main window is shown.
pub const REVEAL_DELAY_MS: u64 = 3000;

/// Whether `name` is made of small letters and hyphens alone. Such a name is
/// safe wherever a window label or a signal's name is asked for.
pub open spec fn is_plain_name(name: Seq<char>) -> bool {
    forall|i: int| 0 <= i < name.len() ==> is_plain_char(#[trigger] name[i])
}

/// Whether `c` is a small letter of the basic alphabet or a hyphen.
pub open spec fn is_plain_char(c: char) -> bool {
    ('a' <= c && c <= 'z') || c == '-'
}

/// The names that the shell hands to the windowing side are plain, and the
/// two windows go by different labels.
pub proof fn lemma_names_are_plain()
    ensures
        is_plain_name(READY_EVENT@),
        is_plain_name(Window::Splash.label_of()),
        is_plain_name(Window::Main.label_of()),
        Window::Splash.label_of() != Window::Main.label_of(),
{
    reveal_strlit("frontend-ready");
    reveal_strlit("splashscreen");
    reveal_strlit("main");
    assert(Window::Splash.label_of().len() != Window::Main.label_of().len());
}

/// The steps of setup, in the order in which they are carried out.
pub open spec fn setup_plan() -> Seq<Action> {
    seq![
        Action::EnforceMinSize { window: Window::Main, width: MIN_WIDTH, height: MIN_HEIGHT },
        Action::Center { window: Window::Splash },
        Action::Center { window: Window::Main },
        Action::StartTimer { timer: Timer::SplashShow, delay_ms: SPLASH_DELAY_MS },
        Action::ListenForReady,
    ]
}

/// The window whose absence stops setup, if there is one: the splash window
/// is looked up first.
pub open spec fn missing_window(splash_found: bool, main_found: bool) -> Option<Window> {
    if !splash_found {
        Some(Window::Splash)
    } else if !main_found {
        Some(Window::Main)
    } else {
        None
    }
}

/// The phase that follows `phase` once `event` has been handled.
pub open spec fn next_phase(phase: Phase, event: Event) -> Phase {
    match event {
        Event::FrontendReady => phase,
        Event::TimerElapsed { timer: Timer::SplashShow } => match phase {
            Phase::Hidden => Phase::SplashVisible,
            _ => phase,
        },
        Event::TimerElapsed { timer: Timer::MainReveal } => Phase::MainVisible,
    }
}

/// The steps that `event` calls for when it arrives in `phase`.
pub open spec fn plan(phase: Phase, event: Event) -> Seq<Action> {
    match event {
        Event::FrontendReady => seq![
            Action::StartTimer { timer: Timer::MainReveal, delay_ms: REVEAL_DELAY_MS },
        ],
        Event::TimerElapsed { timer: Timer::SplashShow } => match phase {
            Phase::Hidden => seq![Action::Show { window: Window::Splash }],
            _ => Seq::empty(),
        },
        Event::TimerElapsed { timer: Timer::MainReveal } => match phase {
            Phase::MainVisible => Seq::empty(),
            _ => seq![
                Action::Show { window: Window::Main },
                Action::Close { window: Window::Splash },
            ],
        },
    }
}

/// The sequencer's state.
#[derive(Clone, Copy, Debug, PartialEq, Eq, Structural)]
pub struct Sequencer {
    phase: Phase,
}

impl View for Sequencer {
    type V = Phase;

    closed spec fn view(&self) -> Phase {
        self.phase
    }
}

impl Phase {
    /// Whether `window` is visible in this phase.
    pub open spec fn shows(self, window: Window) -> bool {
        match (self, window) {
            (Phase::SplashVisible, Window::Splash) => true,
            (Phase::MainVisible, Window::Main) => true,
            _ => false,
        }
    }

    /// Whether `window` has been closed by the time of this phase.
    pub open spec fn has_closed(self, window: Window) -> bool {
        self == Phase::MainVisible && window == Window::Splash
    }

    /// Whether `window` is visible in this phase.
    pub fn is_showing(&self, window: Window) -> (visible: bool)
        ensures
            visible == self.shows(window),
    {
        match (*self, window) {
            (Phase::SplashVisible, Window::Splash) => true,
            (Phase::MainVisible, Window::Main) => true,
            _ => false,
        }
    }

    /// Whether `window` has been closed by the time of this phase.
    pub fn is_closed(&self, window: Window) -> (closed: bool)
        ensures
            closed == self.has_closed(window),
    {
        *self == Phase::MainVisible && window == Window::Splash
    }
}

impl Sequencer {
    /// Begins the sequence once the shell has looked both windows up.
    ///
    /// With both windows found the sequence starts hidden and the setup steps
    /// are handed out. A missing window stops setup; where both are missing
    /// the splash window is the one reported.
    pub fn setup(splash_found: bool, main_found: bool) -> (outcome: Result<
        (Sequencer, Vec<Action>),
        SetupError,
    >)
        ensures
            match outcome {
                Ok((sequencer, actions)) => {
                    &&& missing_window(splash_found, main_found) is None
                    &&& sequencer@ == Phase::Hidden
                    &&& actions@ == setup_plan()
                },
                Err(error) => missing_window(splash_found, main_found) == Some(error.window()),
            },
    {
        if !splash_found {
            return Err(SetupError::MissingWindow { window: Window::Splash });
        }
        if !main_found {
            return Err(SetupError::MissingWindow { window: Window::Main });
        }
        let mut actions: Vec<Action> = Vec::new();
        actions.push(
            Action::EnforceMinSize { window: Window::Main, width: MIN_WIDTH, height: MIN_HEIGHT },
        );
        actions.push(Action::Center { window: Window::Splash });
        actions.push(Action::Center { window: Window::Main });
        actions.push(Action::StartTimer { timer: Timer::SplashShow, delay_ms: SPLASH_DELAY_MS });
        actions.push(Action::ListenForReady);
        Ok((Sequencer { phase: Phase::Hidden }, actions))
    }

    /// Handles one event: moves to the phase that follows and hands out the
    /// steps that the event calls for.
    pub fn handle(&mut self, event: Event) -> (actions: Vec<Action>)
        ensures
            final(self)@ == next_phase(old(self)@, event),
            actions@ == plan(old(self)@, event),
    {
        let mut actions: Vec<Action> = Vec::new();
        match event {
            Event::FrontendReady => {
                actions.push(
                    Action::StartTimer { timer: Timer::MainReveal, delay_ms: REVEAL_DELAY_MS },
                );
            },
            Event::TimerElapsed { timer: Timer::SplashShow } => {
                if self.phase == Phase::Hidden {
                    actions.push(Action::Show { window: Window::Splash });
                    self.phase = Phase::SplashVisible;
                }
            },
            Event::TimerElapsed { timer: Timer::MainReveal } => {
                if self.phase != Phase::MainVisible {
                    actions.push(Action::Show { window: Window::Main });
                    actions.push(Action::Close { window: Window::Splash });
                    self.phase = Phase::MainVisible;
                }
            },
        }
        actions
    }

    /// The phase that the sequence is in.
    pub fn phase(&self) -> (phase: Phase)
        ensures
            phase == self@,
    {
        self.phase
    }
}

} // verus!
