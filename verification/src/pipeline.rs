//! The way of a press: from the input monitor through the event channel to
//! the control loop.
//!
//! The two tasks share nothing but the mailbox. This module puts the three
//! parts side by side, as a model that takes the events of both tasks in
//! whatever order they fall, and states what a press of the button does to
//! the active pattern.

use vstd::prelude::*;
use crate::button::{InputEvent, MonitorState, monitor_step};
use crate::channel::{CAPACITY, pending_after_receive, pending_after_send, received};
use crate::patterns::Pattern;

verus! {

/// Something that happens in one of the two tasks.
pub enum SystemEvent {
    /// The input monitor sees an event on the button.
    Input(InputEvent),
    /// The control loop looks into the mailbox.
    Receive,
}

/// The input monitor, the mailbox and the control loop's selection, with a
/// count of the signals that the control loop has taken.
pub struct SystemModel {
    pub monitor: MonitorState,
    pub pending: nat,
    pub pattern: Pattern,
    pub advances: nat,
}

/// The system at rest: the button is up, the mailbox is empty, and `pattern`
/// is active.
pub open spec fn system_start(pattern: Pattern) -> SystemModel {
    SystemModel { monitor: MonitorState::AwaitingPress, pending: 0, pattern, advances: 0 }
}

/// What one event does. An input event moves the monitor, and a confirmed
/// press sends a signal to the mailbox. When the control loop looks into
/// the mailbox and finds a signal, it takes it and advances the pattern.
pub open spec fn system_step(s: SystemModel, event: SystemEvent) -> SystemModel {
    match event {
        SystemEvent::Input(input) => {
            let reaction = monitor_step(s.monitor, input);
            SystemModel {
                monitor: reaction.next,
                pending: if reaction.post {
                    pending_after_send(s.pending)
                } else {
                    s.pending
                },
                ..s
            }
        },
        SystemEvent::Receive => match received(s.pending) {
            Some(_) => SystemModel {
                pending: pending_after_receive(s.pending),
                pattern: s.pattern.successor(),
                advances: s.advances + 1,
                ..s
            },
            None => s,
        },
    }
}

/// The system after a run of events.
pub open spec fn system_run(s: SystemModel, events: Seq<SystemEvent>) -> SystemModel
    decreases events.len(),
{
    if events.len() == 0 {
        s
    } else {
        system_step(system_run(s, events.drop_last()), events.last())
    }
}

/// Whether every event is a look into the mailbox.
pub open spec fn receives_only(events: Seq<SystemEvent>) -> bool {
    forall|i: int| 0 <= i < events.len() ==> events[i] == SystemEvent::Receive
}

/// Whether the control loop looks into the mailbox at least once.
pub open spec fn has_receive(events: Seq<SystemEvent>) -> bool {
    exists|i: int| 0 <= i < events.len() && events[i] == SystemEvent::Receive
}

/// Whether the button stays down: no event is a rising edge.
pub open spec fn no_release(events: Seq<SystemEvent>) -> bool {
    forall|i: int|
        0 <= i < events.len() ==> events[i] != SystemEvent::Input(InputEvent::RisingEdge)
}

/// A run of events in two parts: the second part starts where the first
/// ended.
pub proof fn lemma_system_run_split(
    s: SystemModel,
    first: Seq<SystemEvent>,
    second: Seq<SystemEvent>,
)
    ensures
        system_run(s, first + second) == system_run(system_run(s, first), second),
    decreases second.len(),
{
    if second.len() == 0 {
        assert(first + second =~= first);
    } else {
        assert((first + second).drop_last() =~= first + second.drop_last());
        lemma_system_run_split(s, first, second.drop_last());
    }
}

/// A run of a single event is that event's step.
pub proof fn lemma_system_run_one(s: SystemModel, event: SystemEvent)
    ensures
        system_run(s, seq![event]) == system_step(s, event),
{
    reveal_with_fuel(system_run, 2);
    assert(seq![event].drop_last() =~= Seq::<SystemEvent>::empty());
}

/// While no press can be confirmed, nothing is sent. That is so while the
/// control loop alone is active, and while the button is held after a
/// confirmed press. Then the monitor stays as it is, every signal that
/// leaves the mailbox advances the pattern by one step, and once the
/// control loop has looked into the mailbox, it is empty.
pub proof fn lemma_quiet_run(s: SystemModel, events: Seq<SystemEvent>)
    requires
        s.pending <= CAPACITY,
        receives_only(events) || (s.monitor == MonitorState::AwaitingRelease && no_release(
            events,
        )),
    ensures
        system_run(s, events).monitor == s.monitor,
        system_run(s, events).pending + system_run(s, events).advances == s.pending + s.advances,
        system_run(s, events).pending <= s.pending,
        system_run(s, events).pattern == s.pattern.advanced(
            (system_run(s, events).advances - s.advances) as nat,
        ),
        has_receive(events) ==> system_run(s, events).pending == 0,
    decreases events.len(),
{
    if events.len() > 0 {
        let earlier = events.drop_last();
        lemma_quiet_run(s, earlier);
        let before = system_run(s, earlier);
        assert(events.last() == events[events.len() - 1]);
        if has_receive(events) && events.last() != SystemEvent::Receive {
            let i = choose|i: int| 0 <= i < events.len() && events[i] == SystemEvent::Receive;
            assert(earlier[i] == SystemEvent::Receive);
        }
        reveal_with_fuel(Pattern::advanced, 2);
    }
}

/// One press, one advance. The system is at rest. The button is pressed:
/// the input falls, and after the debounce time it is still low. It is held
/// for as long as one likes, and released. The control loop may look into
/// the mailbox at any time, and does so at least once after the press was
/// confirmed. Then it has taken exactly one signal, the pattern has moved
/// exactly one step in the cycle, the mailbox is empty, and the monitor is
/// waiting for the next press.
pub proof fn lemma_press_advances_once(
    pattern: Pattern,
    before: Seq<SystemEvent>,
    settling: Seq<SystemEvent>,
    held: Seq<SystemEvent>,
    after: Seq<SystemEvent>,
)
    requires
        receives_only(before),
        receives_only(settling),
        no_release(held),
        receives_only(after),
        has_receive(held) || has_receive(after),
    ensures
        ({
            let events = before + seq![SystemEvent::Input(InputEvent::FallingEdge)] + settling
                + seq![SystemEvent::Input(InputEvent::DebounceElapsed { still_low: true })] + held
                + seq![SystemEvent::Input(InputEvent::RisingEdge)] + after;
            let end = system_run(system_start(pattern), events);
            &&& end.advances == 1
            &&& end.pattern == pattern.successor()
            &&& end.pending == 0
            &&& end.monitor == MonitorState::AwaitingPress
        }),
{
    let fall = SystemEvent::Input(InputEvent::FallingEdge);
    let confirm = SystemEvent::Input(InputEvent::DebounceElapsed { still_low: true });
    let release = SystemEvent::Input(InputEvent::RisingEdge);
    let s0 = system_start(pattern);

    let t1 = before;
    lemma_quiet_run(s0, before);
    let s1 = system_run(s0, t1);

    let t2 = t1 + seq![fall];
    lemma_system_run_split(s0, t1, seq![fall]);
    lemma_system_run_one(s1, fall);
    let s2 = system_run(s0, t2);

    let t3 = t2 + settling;
    lemma_system_run_split(s0, t2, settling);
    lemma_quiet_run(s2, settling);
    let s3 = system_run(s0, t3);

    let t4 = t3 + seq![confirm];
    lemma_system_run_split(s0, t3, seq![confirm]);
    lemma_system_run_one(s3, confirm);
    let s4 = system_run(s0, t4);
    assert(s4.monitor == MonitorState::AwaitingRelease && s4.pending == 1 && s4.advances == 0);

    let t5 = t4 + held;
    lemma_system_run_split(s0, t4, held);
    lemma_quiet_run(s4, held);
    let s5 = system_run(s0, t5);

    let t6 = t5 + seq![release];
    lemma_system_run_split(s0, t5, seq![release]);
    lemma_system_run_one(s5, release);
    let s6 = system_run(s0, t6);

    lemma_system_run_split(s0, t6, after);
    lemma_quiet_run(s6, after);
    reveal_with_fuel(Pattern::advanced, 2);
}

} // verus!
