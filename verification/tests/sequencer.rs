use splash_shell::sequencer::{
    Action, Event, Phase, Sequencer, SetupError, Timer, Window, MIN_HEIGHT, MIN_WIDTH,
    READY_EVENT, REVEAL_DELAY_MS, SPLASH_DELAY_MS,
};

/// The two windows as a shell would see them, for carrying the steps out.
#[derive(Clone, Copy, Debug, PartialEq, Eq)]
struct Pane {
    visible: bool,
    closed: bool,
    centered: bool,
    min_size: Option<(u32, u32)>,
}

const FRESH: Pane = Pane { visible: false, closed: false, centered: false, min_size: None };

/// Windows and a clock: carries out steps, keeps the timers that were
/// started, and hands the sequencer the timers that have run out.
struct Shell {
    sequencer: Sequencer,
    splash: Pane,
    main: Pane,
    now_ms: u64,
    timers: Vec<(u64, Timer)>,
    listening: bool,
    done: Vec<Action>,
}

impl Shell {
    fn start() -> Shell {
        let (sequencer, actions) = Sequencer::setup(true, true).unwrap();
        let mut shell = Shell {
            sequencer,
            splash: FRESH,
            main: FRESH,
            now_ms: 0,
            timers: Vec::new(),
            listening: false,
            done: Vec::new(),
        };
        shell.carry_out(actions);
        shell
    }

    fn pane(&mut self, window: Window) -> &mut Pane {
        match window {
            Window::Splash => &mut self.splash,
            Window::Main => &mut self.main,
        }
    }

    fn open_pane(&mut self, window: Window) -> &mut Pane {
        let pane = self.pane(window);
        assert!(!pane.closed, "a step on the closed window {window:?}");
        pane
    }

    fn carry_out(&mut self, actions: Vec<Action>) {
        for action in actions {
            match action {
                Action::EnforceMinSize { window, width, height } => {
                    self.open_pane(window).min_size = Some((width, height))
                }
                Action::Center { window } => self.open_pane(window).centered = true,
                Action::Show { window } => self.open_pane(window).visible = true,
                Action::Close { window } => {
                    let pane = self.open_pane(window);
                    pane.visible = false;
                    pane.closed = true;
                }
                Action::StartTimer { timer, delay_ms } => {
                    self.timers.push((self.now_ms + delay_ms, timer))
                }
                Action::ListenForReady => self.listening = true,
            }
            self.done.push(action);
        }
    }

    fn signal_ready(&mut self) {
        assert!(self.listening);
        let actions = self.sequencer.handle(Event::FrontendReady);
        self.carry_out(actions);
    }

    fn wait(&mut self, ms: u64) {
        let until = self.now_ms + ms;
        loop {
            let mut next: Option<usize> = None;
            for (i, (due, _)) in self.timers.iter().enumerate() {
                if *due <= until && next.map_or(true, |n| *due < self.timers[n].0) {
                    next = Some(i);
                }
            }
            match next {
                Some(i) => {
                    let (due, timer) = self.timers.remove(i);
                    self.now_ms = due;
                    let actions = self.sequencer.handle(Event::TimerElapsed { timer });
                    self.carry_out(actions);
                }
                None => {
                    self.now_ms = until;
                    return;
                }
            }
        }
    }

    fn looks_as_the_phase_says(&self) -> bool {
        let phase = self.sequencer.phase();
        self.splash.visible == phase.is_showing(Window::Splash)
            && self.main.visible == phase.is_showing(Window::Main)
            && self.splash.closed == phase.is_closed(Window::Splash)
            && self.main.closed == phase.is_closed(Window::Main)
    }
}

#[test]
fn the_fixed_values() {
    assert_eq!(MIN_WIDTH, 600);
    assert_eq!(MIN_HEIGHT, 400);
    assert_eq!(SPLASH_DELAY_MS, 200);
    assert_eq!(REVEAL_DELAY_MS, 3000);
    assert_eq!(READY_EVENT, "frontend-ready");
}

#[test]
fn the_window_labels() {
    assert_eq!(Window::Splash.label(), "splashscreen");
    assert_eq!(Window::Main.label(), "main");
}

#[test]
fn the_names_are_plain_and_the_labels_differ() {
    let plain = |name: &str| name.chars().all(|c| c.is_ascii_lowercase() || c == '-');
    assert!(plain(READY_EVENT));
    assert!(plain(Window::Splash.label()));
    assert!(plain(Window::Main.label()));
    assert_ne!(Window::Splash.label(), Window::Main.label());
}

#[test]
fn setup_hands_out_its_steps_in_order() {
    let (sequencer, actions) = Sequencer::setup(true, true).unwrap();
    assert_eq!(sequencer.phase(), Phase::Hidden);
    assert_eq!(
        actions,
        vec![
            Action::EnforceMinSize { window: Window::Main, width: 600, height: 400 },
            Action::Center { window: Window::Splash },
            Action::Center { window: Window::Main },
            Action::StartTimer { timer: Timer::SplashShow, delay_ms: 200 },
            Action::ListenForReady,
        ]
    );
}

#[test]
fn setup_stops_without_the_splash_window() {
    assert_eq!(
        Sequencer::setup(false, true),
        Err(SetupError::MissingWindow { window: Window::Splash })
    );
}

#[test]
fn setup_stops_without_the_main_window() {
    assert_eq!(
        Sequencer::setup(true, false),
        Err(SetupError::MissingWindow { window: Window::Main })
    );
}

#[test]
fn setup_reports_the_splash_window_where_both_are_missing() {
    assert_eq!(
        Sequencer::setup(false, false),
        Err(SetupError::MissingWindow { window: Window::Splash })
    );
}

#[test]
fn what_each_phase_shows() {
    assert!(!Phase::Hidden.is_showing(Window::Splash));
    assert!(!Phase::Hidden.is_showing(Window::Main));
    assert!(Phase::SplashVisible.is_showing(Window::Splash));
    assert!(!Phase::SplashVisible.is_showing(Window::Main));
    assert!(!Phase::MainVisible.is_showing(Window::Splash));
    assert!(Phase::MainVisible.is_showing(Window::Main));
}

#[test]
fn what_each_phase_has_closed() {
    for phase in [Phase::Hidden, Phase::SplashVisible, Phase::MainVisible] {
        assert!(!phase.is_closed(Window::Main));
    }
    assert!(!Phase::Hidden.is_closed(Window::Splash));
    assert!(!Phase::SplashVisible.is_closed(Window::Splash));
    assert!(Phase::MainVisible.is_closed(Window::Splash));
}

#[test]
fn the_splash_timer_shows_the_splash_window() {
    let (mut sequencer, _) = Sequencer::setup(true, true).unwrap();
    let actions = sequencer.handle(Event::TimerElapsed { timer: Timer::SplashShow });
    assert_eq!(actions, vec![Action::Show { window: Window::Splash }]);
    assert_eq!(sequencer.phase(), Phase::SplashVisible);
}

#[test]
fn a_second_splash_timer_changes_nothing() {
    let (mut sequencer, _) = Sequencer::setup(true, true).unwrap();
    sequencer.handle(Event::TimerElapsed { timer: Timer::SplashShow });
    let actions = sequencer.handle(Event::TimerElapsed { timer: Timer::SplashShow });
    assert_eq!(actions, vec![]);
    assert_eq!(sequencer.phase(), Phase::SplashVisible);
}

#[test]
fn a_readiness_signal_starts_the_reveal_timer_in_every_phase() {
    let start = vec![Action::StartTimer { timer: Timer::MainReveal, delay_ms: 3000 }];
    let (mut sequencer, _) = Sequencer::setup(true, true).unwrap();
    assert_eq!(sequencer.handle(Event::FrontendReady), start);
    assert_eq!(sequencer.phase(), Phase::Hidden);
    sequencer.handle(Event::TimerElapsed { timer: Timer::SplashShow });
    assert_eq!(sequencer.handle(Event::FrontendReady), start);
    assert_eq!(sequencer.phase(), Phase::SplashVisible);
    sequencer.handle(Event::TimerElapsed { timer: Timer::MainReveal });
    assert_eq!(sequencer.handle(Event::FrontendReady), start);
    assert_eq!(sequencer.phase(), Phase::MainVisible);
}

#[test]
fn the_reveal_timer_shows_main_then_closes_splash() {
    let (mut sequencer, _) = Sequencer::setup(true, true).unwrap();
    sequencer.handle(Event::TimerElapsed { timer: Timer::SplashShow });
    sequencer.handle(Event::FrontendReady);
    let actions = sequencer.handle(Event::TimerElapsed { timer: Timer::MainReveal });
    assert_eq!(
        actions,
        vec![Action::Show { window: Window::Main }, Action::Close { window: Window::Splash }]
    );
    assert_eq!(sequencer.phase(), Phase::MainVisible);
}

#[test]
fn startup_then_ready_then_main() {
    let mut shell = Shell::start();
    assert_eq!(shell.sequencer.phase(), Phase::Hidden);
    assert!(!shell.splash.visible && !shell.main.visible);

    shell.wait(250);
    assert_eq!(shell.sequencer.phase(), Phase::SplashVisible);
    assert!(shell.splash.visible);
    assert!(!shell.main.visible);

    shell.signal_ready();
    assert!(shell.splash.visible);
    assert!(!shell.main.visible);

    shell.wait(3100);
    assert_eq!(shell.sequencer.phase(), Phase::MainVisible);
    assert!(shell.main.visible);
    assert!(shell.splash.closed);
    assert!(!shell.splash.visible);
    assert!(shell.timers.is_empty());
}

#[test]
fn main_stays_hidden_until_the_reveal_delay_is_over() {
    let mut shell = Shell::start();
    shell.wait(250);
    shell.signal_ready();
    shell.wait(2999);
    assert_eq!(shell.sequencer.phase(), Phase::SplashVisible);
    assert!(!shell.main.visible);
    shell.wait(1);
    assert_eq!(shell.sequencer.phase(), Phase::MainVisible);
    assert!(shell.main.visible);
}

#[test]
fn the_splash_window_stays_hidden_until_its_delay_is_over() {
    let mut shell = Shell::start();
    shell.wait(199);
    assert_eq!(shell.sequencer.phase(), Phase::Hidden);
    assert!(!shell.splash.visible);
    shell.wait(1);
    assert_eq!(shell.sequencer.phase(), Phase::SplashVisible);
    assert!(shell.splash.visible);
}

#[test]
fn without_a_readiness_signal_the_splash_window_stays() {
    let mut shell = Shell::start();
    shell.wait(60_000);
    assert_eq!(shell.sequencer.phase(), Phase::SplashVisible);
    assert!(shell.splash.visible && !shell.splash.closed);
    assert!(!shell.main.visible);
}

#[test]
fn many_readiness_signals_end_in_the_same_place() {
    for count in 1..6 {
        let mut shell = Shell::start();
        shell.wait(250);
        for _ in 0..count {
            shell.signal_ready();
            shell.wait(700);
        }
        shell.wait(3100);
        assert_eq!(shell.sequencer.phase(), Phase::MainVisible);
        assert!(shell.main.visible && !shell.main.closed);
        assert!(shell.splash.closed && !shell.splash.visible);
        assert!(shell.timers.is_empty());
        let shown = shell.done.iter().filter(|a| **a == Action::Show { window: Window::Main });
        assert_eq!(shown.count(), 1);
        let closed = shell.done.iter().filter(|a| **a == Action::Close { window: Window::Splash });
        assert_eq!(closed.count(), 1);
        let started = shell
            .done
            .iter()
            .filter(|a| matches!(a, Action::StartTimer { timer: Timer::MainReveal, .. }));
        assert_eq!(started.count(), count);
    }
}

#[test]
fn a_signal_after_the_reveal_changes_no_window() {
    let mut shell = Shell::start();
    shell.wait(250);
    shell.signal_ready();
    shell.wait(3100);
    let (splash, main) = (shell.splash, shell.main);
    shell.signal_ready();
    shell.wait(3100);
    assert_eq!(shell.sequencer.phase(), Phase::MainVisible);
    assert_eq!((shell.splash, shell.main), (splash, main));
}

#[test]
fn ready_before_the_splash_window_was_shown() {
    let mut shell = Shell::start();
    shell.signal_ready();
    shell.wait(250);
    assert_eq!(shell.sequencer.phase(), Phase::SplashVisible);
    shell.wait(3000);
    assert_eq!(shell.sequencer.phase(), Phase::MainVisible);
    assert!(shell.main.visible && shell.splash.closed);
}

#[test]
fn a_reveal_that_overtakes_the_splash_timer() {
    let (mut sequencer, _) = Sequencer::setup(true, true).unwrap();
    sequencer.handle(Event::FrontendReady);
    let reveal = sequencer.handle(Event::TimerElapsed { timer: Timer::MainReveal });
    assert_eq!(
        reveal,
        vec![Action::Show { window: Window::Main }, Action::Close { window: Window::Splash }]
    );
    assert_eq!(sequencer.phase(), Phase::MainVisible);
    let late = sequencer.handle(Event::TimerElapsed { timer: Timer::SplashShow });
    assert_eq!(late, vec![]);
    assert_eq!(sequencer.phase(), Phase::MainVisible);
}

#[test]
fn a_second_reveal_asks_for_nothing() {
    let (mut sequencer, _) = Sequencer::setup(true, true).unwrap();
    sequencer.handle(Event::TimerElapsed { timer: Timer::MainReveal });
    let again = sequencer.handle(Event::TimerElapsed { timer: Timer::MainReveal });
    assert_eq!(again, vec![]);
    assert_eq!(sequencer.phase(), Phase::MainVisible);
}

#[test]
fn no_step_is_aimed_at_a_closed_window() {
    let ready = Event::FrontendReady;
    let splash = Event::TimerElapsed { timer: Timer::SplashShow };
    let reveal = Event::TimerElapsed { timer: Timer::MainReveal };
    let events = [ready, splash, reveal];
    for a in events {
        for b in events {
            for c in events {
                for d in events {
                    let mut shell = Shell::start();
                    for event in [a, b, c, d] {
                        let actions = shell.sequencer.handle(event);
                        shell.carry_out(actions);
                        assert!(shell.looks_as_the_phase_says());
                        assert_eq!(shell.main.min_size, Some((600, 400)));
                    }
                    let revealed = [a, b, c, d].contains(&reveal);
                    assert_eq!(shell.sequencer.phase() == Phase::MainVisible, revealed);
                }
            }
        }
    }
}

#[test]
fn the_least_size_is_set_before_main_can_be_seen() {
    let mut shell = Shell::start();
    assert_eq!(shell.main.min_size, Some((600, 400)));
    assert!(shell.splash.centered && shell.main.centered);
    shell.wait(250);
    shell.signal_ready();
    shell.wait(3100);
    assert_eq!(shell.main.min_size, Some((600, 400)));
    let set = shell
        .done
        .iter()
        .position(|a| matches!(a, Action::EnforceMinSize { window: Window::Main, .. }))
        .unwrap();
    let shown = shell.done.iter().position(|a| *a == Action::Show { window: Window::Main }).unwrap();
    assert!(set < shown);
    let sizes = shell.done.iter().filter(|a| matches!(a, Action::EnforceMinSize { .. }));
    assert_eq!(sizes.count(), 1);
}

#[test]
fn the_sequencer_can_be_copied_and_compared() {
    let (mut sequencer, _) = Sequencer::setup(true, true).unwrap();
    let before = sequencer;
    sequencer.handle(Event::FrontendReady);
    assert_eq!(sequencer, before);
    sequencer.handle(Event::TimerElapsed { timer: Timer::SplashShow });
    assert_ne!(sequencer, before);
}
