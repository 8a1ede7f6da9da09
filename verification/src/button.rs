//! The input monitor: one advance signal for each press of the button.
//!
//! The monitor waits for the input to fall, lets the contact settle for the
//! debounce time, and looks again. If the input is still low the press is
//! real: the monitor posts one signal and then waits for the release, however
//! long the button is held.

use vstd::prelude::*;

verus! {

/// How long the contact is left to settle after a falling edge, in
/// milliseconds.
pub const DEBOUNCE_MS: u64 = 50;

/// What the monitor is waiting for.
#[derive(Clone, Copy, Debug, PartialEq, Eq, Structural)]
pub enum MonitorState {
    /// The button is up; the next falling edge starts a press.
    AwaitingPress,
    /// The input fell; the debounce time is running.
    Debouncing,
    /// The press was confirmed and signalled; the button is still down.
    AwaitingRelease,
}

/// What the input did.
#[derive(Clone, Copy, Debug, PartialEq, Eq, Structural)]
pub enum InputEvent {
    /// The input went from high to low.
    FallingEdge,
    /// The debounce time is over, and the input was sampled again.
    DebounceElapsed { still_low: bool },
    /// The input went from low to high.
    RisingEdge,
}

/// How the monitor answers an event.
#[derive(Clone, Copy, Debug, PartialEq, Eq, Structural)]
pub struct Reaction {
    /// What the monitor waits for next.
    pub next: MonitorState,
    /// Whether to post an advance signal now.
    pub post: bool,
}

/// The monitor's answer to `event` in `state`. A falling edge starts the
/// debounce time. When it is over, a low input confirms the press, which
/// posts a signal, and a high input calls it a bounce. After a confirmed
/// press only the rising edge counts. An event that the monitor is not
/// waiting for changes nothing.
pub open spec fn monitor_step(state: MonitorState, event: InputEvent) -> Reaction {
    match (state, event) {
        (MonitorState::AwaitingPress, InputEvent::FallingEdge) => Reaction {
            next: MonitorState::Debouncing,
            post: false,
        },
        (MonitorState::Debouncing, InputEvent::DebounceElapsed { still_low }) => if still_low {
            Reaction { next: MonitorState::AwaitingRelease, post: true }
        } else {
            Reaction { next: MonitorState::AwaitingPress, post: false }
        },
        (MonitorState::AwaitingRelease, InputEvent::RisingEdge) => Reaction {
            next: MonitorState::AwaitingPress,
            post: false,
        },
        _ => Reaction { next: state, post: false },
    }
}

/// Decides what follows `event` in `state`: the next state, and whether a
/// signal is to be posted.
pub fn button_step(state: MonitorState, event: InputEvent) -> (reaction: Reaction)
    ensures
        reaction == monitor_step(state, event),
{
    match state {
        MonitorState::AwaitingPress => match event {
            InputEvent::FallingEdge => Reaction { next: MonitorState::Debouncing, post: false },
            _ => Reaction { next: state, post: false },
        },
        MonitorState::Debouncing => match event {
            InputEvent::DebounceElapsed { still_low } => if still_low {
                Reaction { next: MonitorState::AwaitingRelease, post: true }
            } else {
                Reaction { next: MonitorState::AwaitingPress, post: false }
            },
            _ => Reaction { next: state, post: false },
        },
        MonitorState::AwaitingRelease => match event {
            InputEvent::RisingEdge => Reaction { next: MonitorState::AwaitingPress, post: false },
            _ => Reaction { next: state, post: false },
        },
    }
}

/// The state after a run of events.
pub open spec fn monitor_run(state: MonitorState, events: Seq<InputEvent>) -> MonitorState
    decreases events.len(),
{
    if events.len() == 0 {
        state
    } else {
        monitor_step(monitor_run(state, events.drop_last()), events.last()).next
    }
}

/// The number of signals posted during a run of events.
pub open spec fn monitor_posts(state: MonitorState, events: Seq<InputEvent>) -> nat
    decreases events.len(),
{
    if events.len() == 0 {
        0
    } else {
        let earlier = events.drop_last();
        let posted: nat = if monitor_step(monitor_run(state, earlier), events.last()).post {
            1
        } else {
            0
        };
        monitor_posts(state, earlier) + posted
    }
}

/// While the button is held after a confirmed press, nothing is posted:
/// whatever happens short of a rising edge, the monitor goes on waiting for
/// the release.
pub proof fn lemma_held_posts_nothing(events: Seq<InputEvent>)
    requires
        forall|i: int| 0 <= i < events.len() ==> events[i] != InputEvent::RisingEdge,
    ensures
        monitor_run(MonitorState::AwaitingRelease, events) == MonitorState::AwaitingRelease,
        monitor_posts(MonitorState::AwaitingRelease, events) == 0,
    decreases events.len(),
{
    if events.len() > 0 {
        lemma_held_posts_nothing(events.drop_last());
    }
}

/// A run of events in two parts: the second part starts where the first
/// ended, and the posts add up.
pub proof fn lemma_monitor_run_split(
    state: MonitorState,
    first: Seq<InputEvent>,
    second: Seq<InputEvent>,
)
    ensures
        monitor_run(state, first + second) == monitor_run(monitor_run(state, first), second),
        monitor_posts(state, first + second) == monitor_posts(state, first) + monitor_posts(
            monitor_run(state, first),
            second,
        ),
    decreases second.len(),
{
    if second.len() == 0 {
        assert(first + second =~= first);
    } else {
        assert((first + second).drop_last() =~= first + second.drop_last());
        lemma_monitor_run_split(state, first, second.drop_last());
    }
}

/// One press, one signal: a falling edge, a debounce time after which the
/// input is still low, any events short of a rising edge while the button is
/// held, and the release post exactly one signal and leave the monitor
/// waiting for the next press.
pub proof fn lemma_press_posts_once(held: Seq<InputEvent>)
    requires
        forall|i: int| 0 <= i < held.len() ==> held[i] != InputEvent::RisingEdge,
    ensures
        ({
            let press = seq![
                InputEvent::FallingEdge,
                InputEvent::DebounceElapsed { still_low: true },
            ];
            let events = press + held + seq![InputEvent::RisingEdge];
            &&& monitor_posts(MonitorState::AwaitingPress, events) == 1
            &&& monitor_run(MonitorState::AwaitingPress, events) == MonitorState::AwaitingPress
        }),
{
    let press = seq![InputEvent::FallingEdge, InputEvent::DebounceElapsed { still_low: true }];
    let release = seq![InputEvent::RisingEdge];
    let start = MonitorState::AwaitingPress;
    assert(monitor_run(start, press) == MonitorState::AwaitingRelease && monitor_posts(start, press)
        == 1) by {
        reveal_with_fuel(monitor_run, 3);
        reveal_with_fuel(monitor_posts, 3);
        assert(press.drop_last() =~= seq![InputEvent::FallingEdge]);
        assert(press.drop_last().drop_last() =~= Seq::<InputEvent>::empty());
    }
    lemma_held_posts_nothing(held);
    lemma_monitor_run_split(start, press, held);
    assert(monitor_run(MonitorState::AwaitingRelease, release) == MonitorState::AwaitingPress
        && monitor_posts(MonitorState::AwaitingRelease, release) == 0) by {
        reveal_with_fuel(monitor_run, 2);
        reveal_with_fuel(monitor_posts, 2);
        assert(release.drop_last() =~= Seq::<InputEvent>::empty());
    }
    lemma_monitor_run_split(start, press + held, release);
}

} // verus!
