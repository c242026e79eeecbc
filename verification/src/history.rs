//! What holds of a whole run of the sequencer: any number of events, in any
//! order, after a setup that went through.

use vstd::prelude::*;
use crate::desktop::{Desktop, lemma_after_all_concat, lemma_setup_prepares, lemma_step_keeps_pace};
use crate::sequencer::{Action, Event, Phase, Timer, Window, next_phase, plan, setup_plan};

verus! {

/// The phase reached from `phase` once `events` have been handled, first to
/// last.
pub open spec fn phase_after(phase: Phase, events: Seq<Event>) -> Phase
    decreases events.len(),
{
    if events.len() == 0 {
        phase
    } else {
        next_phase(phase_after(phase, events.drop_last()), events.last())
    }
}

/// Every step that handling `events` from `phase` on calls for, in order.
pub open spec fn actions_over(phase: Phase, events: Seq<Event>) -> Seq<Action>
    decreases events.len(),
{
    if events.len() == 0 {
        Seq::empty()
    } else {
        actions_over(phase, events.drop_last()) + plan(
            phase_after(phase, events.drop_last()),
            events.last(),
        )
    }
}

/// How many times the front end has signalled that it is ready.
pub open spec fn signals(events: Seq<Event>) -> nat
    decreases events.len(),
{
    if events.len() == 0 {
        0
    } else if events.last() == Event::FrontendReady {
        signals(events.drop_last()) + 1
    } else {
        signals(events.drop_last())
    }
}

/// How many times `timer` has run out.
pub open spec fn expiries(events: Seq<Event>, timer: Timer) -> nat
    decreases events.len(),
{
    if events.len() == 0 {
        0
    } else if events.last() == (Event::TimerElapsed { timer }) {
        expiries(events.drop_last(), timer) + 1
    } else {
        expiries(events.drop_last(), timer)
    }
}

/// How many times `actions` start `timer`.
pub open spec fn starts(actions: Seq<Action>, timer: Timer) -> nat
    decreases actions.len(),
{
    if actions.len() == 0 {
        0
    } else if actions.last() matches Action::StartTimer { timer: started, .. } && started == timer {
        starts(actions.drop_last(), timer) + 1
    } else {
        starts(actions.drop_last(), timer)
    }
}

/// Once the main window has taken over, nothing that happens changes the
/// phase again.
pub proof fn lemma_main_visible_is_final(events: Seq<Event>)
    ensures
        phase_after(Phase::MainVisible, events) == Phase::MainVisible,
    decreases events.len(),
{
    if events.len() > 0 {
        lemma_main_visible_is_final(events.drop_last());
    }
}

/// A run in which the reveal timer has run out at least once ends with the
/// main window visible and the splash window closed, whatever the phase it
/// began in and whatever else happened, before or after.
pub proof fn lemma_reveal_reaches_main(phase: Phase, events: Seq<Event>)
    requires
        expiries(events, Timer::MainReveal) >= 1,
    ensures
        phase_after(phase, events) == Phase::MainVisible,
        phase_after(phase, events).shows(Window::Main),
        phase_after(phase, events).has_closed(Window::Splash),
    decreases events.len(),
{
    if events.len() > 0 {
        let earlier = events.drop_last();
        if events.last() == (Event::TimerElapsed { timer: Timer::MainReveal }) {
        } else {
            lemma_reveal_reaches_main(phase, earlier);
        }
    }
}

/// Counting over two runs of steps, one after the other, adds up.
proof fn lemma_starts_concat(first: Seq<Action>, second: Seq<Action>, timer: Timer)
    ensures
        starts(first + second, timer) == starts(first, timer) + starts(second, timer),
    decreases second.len(),
{
    if second.len() == 0 {
        assert(first + second =~= first);
    } else {
        assert((first + second).drop_last() =~= first + second.drop_last());
        assert((first + second).last() == second.last());
        lemma_starts_concat(first, second.drop_last(), timer);
    }
}

/// Every readiness signal starts one reveal timer of its own, and nothing
/// else starts one: over any run, as many reveal timers are started as
/// signals came in. The splash timer is started by setup alone.
pub proof fn lemma_each_signal_starts_a_reveal(phase: Phase, events: Seq<Event>)
    ensures
        starts(actions_over(phase, events), Timer::MainReveal) == signals(events),
        starts(actions_over(phase, events), Timer::SplashShow) == 0,
        starts(setup_plan(), Timer::SplashShow) == 1,
        starts(setup_plan(), Timer::MainReveal) == 0,
    decreases events.len(),
{
    assert(starts(setup_plan(), Timer::SplashShow) == 1 && starts(
        setup_plan(),
        Timer::MainReveal,
    ) == 0) by {
        let steps = setup_plan();
        let s4 = steps.drop_last();
        let s3 = s4.drop_last();
        let s2 = s3.drop_last();
        let s1 = s2.drop_last();
        assert(s1.drop_last().len() == 0);
        reveal_with_fuel(starts, 6);
    }
    if events.len() > 0 {
        let earlier = events.drop_last();
        let before = phase_after(phase, earlier);
        let steps = plan(before, events.last());
        lemma_each_signal_starts_a_reveal(phase, earlier);
        lemma_starts_concat(actions_over(phase, earlier), steps, Timer::MainReveal);
        lemma_starts_concat(actions_over(phase, earlier), steps, Timer::SplashShow);
        lemma_starts_in_plan(before, events.last());
    }
}

/// The timers that one event starts: a readiness signal starts one reveal
/// timer, and no other event starts any.
proof fn lemma_starts_in_plan(phase: Phase, event: Event)
    ensures
        starts(plan(phase, event), Timer::MainReveal) == if event == Event::FrontendReady {
            1nat
        } else {
            0nat
        },
        starts(plan(phase, event), Timer::SplashShow) == 0,
{
    let steps = plan(phase, event);
    if steps.len() == 1 {
        assert(steps.drop_last().len() == 0);
    } else if steps.len() == 2 {
        assert(steps.drop_last().len() == 1);
        assert(steps.drop_last().drop_last().len() == 0);
    }
    reveal_with_fuel(starts, 3);
}

/// After a setup that went through, if the front end has signalled at least
/// once that it is ready, then as soon as every reveal timer that was
/// started has run out, the main window is visible and the splash window is
/// closed. How often the signal came, and in what order signals and timers
/// arrived, makes no difference.
pub proof fn lemma_ready_is_answered(events: Seq<Event>)
    requires
        signals(events) >= 1,
        expiries(events, Timer::MainReveal) >= starts(
            actions_over(Phase::Hidden, events),
            Timer::MainReveal,
        ),
    ensures
        phase_after(Phase::Hidden, events) == Phase::MainVisible,
        phase_after(Phase::Hidden, events).shows(Window::Main),
        phase_after(Phase::Hidden, events).has_closed(Window::Splash),
{
    lemma_each_signal_starts_a_reveal(Phase::Hidden, events);
    lemma_reveal_reaches_main(Phase::Hidden, events);
}

/// A whole run on fresh windows, setup first and then any events: every
/// step that the sequencer asks for is permitted when its turn comes, so
/// none is ever aimed at a closed window; the windows always look as the
/// phase says; and from setup on the main window's least size is in force,
/// so that the main window is never visible without it.
pub proof fn lemma_run_keeps_pace(desktop: Desktop, events: Seq<Event>)
    requires
        desktop.fresh(),
    ensures
        desktop.permits_all(setup_plan() + actions_over(Phase::Hidden, events)),
        desktop.after_all(setup_plan() + actions_over(Phase::Hidden, events)).agrees_with(
            phase_after(Phase::Hidden, events),
        ),
        desktop.after_all(
            setup_plan() + actions_over(Phase::Hidden, events),
        ).guards_main_size(),
    decreases events.len(),
{
    if events.len() == 0 {
        lemma_setup_prepares(desktop);
        assert(setup_plan() + actions_over(Phase::Hidden, events) =~= setup_plan());
    } else {
        let earlier = events.drop_last();
        let so_far = setup_plan() + actions_over(Phase::Hidden, earlier);
        let before = phase_after(Phase::Hidden, earlier);
        let steps = plan(before, events.last());
        lemma_run_keeps_pace(desktop, earlier);
        lemma_step_keeps_pace(desktop.after_all(so_far), before, events.last());
        lemma_after_all_concat(desktop, so_far, steps);
        assert(setup_plan() + actions_over(Phase::Hidden, events) =~= so_far + steps);
    }
}

} // verus!
