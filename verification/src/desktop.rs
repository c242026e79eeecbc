//! A model of the two windows, and the proof that the sequencer's steps do
//! to them what its phases say.
//!
//! The model records of each window what the steps can change: whether it is
//! visible, closed or centered, and the least size that was set for it. A step
//! on a closed window is the one thing that can go wrong on the real windows,
//! so the model says which steps are permitted, and the proofs show that the
//! sequencer asks for no other.

use vstd::prelude::*;
use crate::sequencer::{
    Action, Event, Phase, Window, plan, next_phase, setup_plan, MIN_HEIGHT, MIN_WIDTH,
};

verus! {

/// What the steps can change of one window.
pub struct Pane {
    pub visible: bool,
    pub closed: bool,
    pub centered: bool,
    /// Least logical width and height set for the window, if any was set.
    pub min_size: Option<(u32, u32)>,
}

/// The shell's two windows.
pub struct Desktop {
    pub splash: Pane,
    pub main: Pane,
}

impl Desktop {
    /// The pane of `window`.
    pub open spec fn pane(self, window: Window) -> Pane {
        match window {
            Window::Splash => self.splash,
            Window::Main => self.main,
        }
    }

    /// This desktop with `pane` in the place of `window`.
    pub open spec fn with_pane(self, window: Window, pane: Pane) -> Desktop {
        match window {
            Window::Splash => Desktop { splash: pane, ..self },
            Window::Main => Desktop { main: pane, ..self },
        }
    }

    /// The windows as they are built: both open, neither visible.
    pub open spec fn fresh(self) -> bool {
        &&& !self.splash.visible
        &&& !self.splash.closed
        &&& !self.main.visible
        &&& !self.main.closed
    }

    /// Whether the windows look as `phase` says: each window is visible, and
    /// closed, exactly where the phase says so.
    pub open spec fn agrees_with(self, phase: Phase) -> bool {
        &&& self.splash.visible == phase.shows(Window::Splash)
        &&& self.splash.closed == phase.has_closed(Window::Splash)
        &&& self.main.visible == phase.shows(Window::Main)
        &&& self.main.closed == phase.has_closed(Window::Main)
    }

    /// Whether the main window's least size is the one that setup asks for.
    pub open spec fn guards_main_size(self) -> bool {
        self.main.min_size == Some((MIN_WIDTH, MIN_HEIGHT))
    }

    /// Whether `action` can be carried out: a step on a window needs the
    /// window to be open still.
    pub open spec fn permits(self, action: Action) -> bool {
        match action {
            Action::EnforceMinSize { window, .. } => !self.pane(window).closed,
            Action::Center { window } => !self.pane(window).closed,
            Action::Show { window } => !self.pane(window).closed,
            Action::Close { window } => !self.pane(window).closed,
            Action::StartTimer { .. } => true,
            Action::ListenForReady => true,
        }
    }

    /// The windows once `action` has been carried out.
    pub open spec fn after(self, action: Action) -> Desktop {
        match action {
            Action::EnforceMinSize { window, width, height } => self.with_pane(
                window,
                Pane { min_size: Some((width, height)), ..self.pane(window) },
            ),
            Action::Center { window } => self.with_pane(
                window,
                Pane { centered: true, ..self.pane(window) },
            ),
            Action::Show { window } => self.with_pane(
                window,
                Pane { visible: true, ..self.pane(window) },
            ),
            Action::Close { window } => self.with_pane(
                window,
                Pane { visible: false, closed: true, ..self.pane(window) },
            ),
            Action::StartTimer { .. } => self,
            Action::ListenForReady => self,
        }
    }

    /// The windows once `actions` have been carried out, first to last.
    pub open spec fn after_all(self, actions: Seq<Action>) -> Desktop
        decreases actions.len(),
    {
        if actions.len() == 0 {
            self
        } else {
            self.after_all(actions.drop_last()).after(actions.last())
        }
    }

    /// Whether each of `actions`, first to last, can be carried out when its
    /// turn comes.
    pub open spec fn permits_all(self, actions: Seq<Action>) -> bool
        decreases actions.len(),
    {
        actions.len() == 0 || {
            &&& self.permits_all(actions.drop_last())
            &&& self.after_all(actions.drop_last()).permits(actions.last())
        }
    }
}

/// Carrying out two runs of steps one after the other is carrying out the
/// one run that they make together.
pub proof fn lemma_after_all_concat(desktop: Desktop, first: Seq<Action>, second: Seq<Action>)
    ensures
        desktop.after_all(first + second) == desktop.after_all(first).after_all(second),
        desktop.permits_all(first + second) == (desktop.permits_all(first) && desktop.after_all(
            first,
        ).permits_all(second)),
    decreases second.len(),
{
    if second.len() == 0 {
        assert(first + second =~= first);
    } else {
        assert((first + second).drop_last() =~= first + second.drop_last());
        assert((first + second).last() == second.last());
        lemma_after_all_concat(desktop, first, second.drop_last());
    }
}

/// Setup on fresh windows: every step is permitted, and afterwards both
/// windows are centered, neither is visible yet, and the main window's least
/// size is in force.
pub proof fn lemma_setup_prepares(desktop: Desktop)
    requires
        desktop.fresh(),
    ensures
        desktop.permits_all(setup_plan()),
        desktop.after_all(setup_plan()).agrees_with(Phase::Hidden),
        desktop.after_all(setup_plan()).guards_main_size(),
        desktop.after_all(setup_plan()).splash.centered,
        desktop.after_all(setup_plan()).main.centered,
{
    let steps = setup_plan();
    let s1 = seq![steps[0]];
    let s2 = seq![steps[1]];
    let s3 = seq![steps[2]];
    let s4 = seq![steps[3]];
    let s5 = seq![steps[4]];
    assert(steps =~= s1 + s2 + s3 + s4 + s5);
    lemma_single_step(desktop, steps[0]);
    let d1 = desktop.after(steps[0]);
    lemma_single_step(d1, steps[1]);
    let d2 = d1.after(steps[1]);
    lemma_single_step(d2, steps[2]);
    let d3 = d2.after(steps[2]);
    lemma_single_step(d3, steps[3]);
    let d4 = d3.after(steps[3]);
    lemma_single_step(d4, steps[4]);
    lemma_after_all_concat(desktop, s1, s2);
    lemma_after_all_concat(desktop, s1 + s2, s3);
    lemma_after_all_concat(desktop, s1 + s2 + s3, s4);
    lemma_after_all_concat(desktop, s1 + s2 + s3 + s4, s5);
}

/// A run of one step is that step.
proof fn lemma_single_step(desktop: Desktop, action: Action)
    ensures
        desktop.after_all(seq![action]) == desktop.after(action),
        desktop.permits_all(seq![action]) == desktop.permits(action),
{
    let one = seq![action];
    assert(one.drop_last() =~= Seq::<Action>::empty());
    assert(one.last() == action);
    assert(desktop.after_all(one.drop_last()) == desktop);
    assert(desktop.permits_all(one.drop_last()));
}

/// One event, on windows that look as the phase says: every step that the
/// sequencer asks for is permitted, afterwards the windows look as the next
/// phase says, and the main window's least size is as it was.
pub proof fn lemma_step_keeps_pace(desktop: Desktop, phase: Phase, event: Event)
    requires
        desktop.agrees_with(phase),
    ensures
        desktop.permits_all(plan(phase, event)),
        desktop.after_all(plan(phase, event)).agrees_with(next_phase(phase, event)),
        desktop.after_all(plan(phase, event)).main.min_size == desktop.main.min_size,
{
    let steps = plan(phase, event);
    if steps.len() == 0 {
    } else if steps.len() == 1 {
        assert(steps =~= seq![steps[0]]);
        lemma_single_step(desktop, steps[0]);
    } else {
        assert(steps =~= seq![steps[0]] + seq![steps[1]]);
        lemma_single_step(desktop, steps[0]);
        lemma_single_step(desktop.after(steps[0]), steps[1]);
        lemma_after_all_concat(desktop, seq![steps[0]], seq![steps[1]]);
    }
}

} // verus!
