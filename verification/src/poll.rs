//! The decisions of a sleep that ends in a busy poll: to wait `ns`
//! nanoseconds, sleep for `ns - threshold` of them and busy poll the clock
//! for the rest. The caller performs each action and reports what it saw.

use vstd::prelude::*;

verus! {

/// Where a busy-poll sleep stands.
#[derive(PartialEq, Eq, Structural, Debug, Clone, Copy)]
pub enum PollState {
    /// A sleep is under way; `ns` nanoseconds were left when it began.
    Sleeping { ns: u64 },
    /// The next clock reading starts the busy poll, which lasts `ns`
    /// nanoseconds.
    AwaitingStart { ns: u64 },
    /// Busy polling since the clock read `start`, for `ns` nanoseconds.
    Polling { start: u64, ns: u64 },
    /// The wait is over.
    Done,
}

/// What the caller observed after performing an action.
#[derive(PartialEq, Eq, Structural, Debug, Clone, Copy)]
pub enum PollEvent {
    /// The sleep ended after `elapsed_nanos` nanoseconds.
    Woke { elapsed_nanos: u128 },
    /// The clock read `now` nanoseconds.
    Clock { now: u64 },
}

/// What the caller has to do next.
#[derive(PartialEq, Eq, Structural, Debug, Clone, Copy)]
pub enum PollAction {
    /// Sleep for `nanos` nanoseconds and report how long it took.
    Sleep { nanos: u64 },
    /// Read the clock and report it.
    ReadClock,
    /// Spin once, then read the clock and report it.
    Spin,
    /// Return to the caller of the wait.
    Finish,
}

/// How a wait of `ns` nanoseconds with a busy-poll `threshold` begins.
pub open spec fn spec_start(ns: u64, threshold: u64) -> (PollState, PollAction) {
    if ns == 0 {
        (PollState::Done, PollAction::Finish)
    } else if ns > threshold {
        (PollState::Sleeping { ns }, PollAction::Sleep { nanos: (ns - threshold) as u64 })
    } else {
        (PollState::AwaitingStart { ns }, PollAction::ReadClock)
    }
}

/// The events that can follow the action that was asked for in `state`.
pub open spec fn event_fits(state: PollState, event: PollEvent) -> bool {
    match (state, event) {
        (PollState::Sleeping { .. }, PollEvent::Woke { .. }) => true,
        (PollState::AwaitingStart { .. }, PollEvent::Clock { .. }) => true,
        (PollState::Polling { start, .. }, PollEvent::Clock { now }) => start <= now,
        _ => false,
    }
}

/// One step of the wait: the next state and action after `event`.
pub open spec fn spec_step(state: PollState, event: PollEvent) -> (PollState, PollAction) {
    match (state, event) {
        (PollState::Sleeping { ns }, PollEvent::Woke { elapsed_nanos }) => {
            let elapsed = elapsed_nanos as u64;
            if elapsed > ns {
                (PollState::Done, PollAction::Finish)
            } else {
                (PollState::AwaitingStart { ns: (ns - elapsed) as u64 }, PollAction::ReadClock)
            }
        },
        (PollState::AwaitingStart { ns }, PollEvent::Clock { now }) => (
            PollState::Polling { start: now, ns },
            PollAction::ReadClock,
        ),
        (PollState::Polling { start, ns }, PollEvent::Clock { now }) => {
            if now - start < ns {
                (PollState::Polling { start, ns }, PollAction::Spin)
            } else {
                (PollState::Done, PollAction::Finish)
            }
        },
        _ => (state, PollAction::Finish),
    }
}

/// An action agrees with the state it comes with: `Finish` exactly when the
/// wait is over, `Sleep` while sleeping, and a clock reading while the poll
/// is about to start or under way.
pub open spec fn action_fits(state: PollState, action: PollAction) -> bool {
    match action {
        PollAction::Finish => state is Done,
        PollAction::Sleep { .. } => state is Sleeping,
        PollAction::ReadClock => state is AwaitingStart || state is Polling,
        PollAction::Spin => state is Polling,
    }
}

/// Begins a wait of `ns` nanoseconds: nothing to do for a zero wait, a
/// sleep of `ns - threshold` nanoseconds when `ns` exceeds the threshold,
/// and otherwise a busy poll for all of it.
pub fn busy_poll_start(ns: u64, threshold: u64) -> (r: (PollState, PollAction))
    ensures
        r == spec_start(ns, threshold),
        ns == 0 ==> r == (PollState::Done, PollAction::Finish),
        0 < ns && ns > threshold ==> r == (
            PollState::Sleeping { ns },
            PollAction::Sleep { nanos: (ns - threshold) as u64 },
        ),
        0 < ns && ns <= threshold ==> r == (PollState::AwaitingStart { ns }, PollAction::ReadClock),
{
    if ns == 0 {
        (PollState::Done, PollAction::Finish)
    } else if ns > threshold {
        (PollState::Sleeping { ns }, PollAction::Sleep { nanos: ns - threshold })
    } else {
        (PollState::AwaitingStart { ns }, PollAction::ReadClock)
    }
}

/// Advances a wait by one observed event. After a sleep that overran the
/// time that was left, the wait is over; otherwise the rest is busy polled
/// from the next clock reading on, until the clock has advanced by the rest.
/// The clock must not go back during the poll.
pub fn busy_poll_step(state: PollState, event: PollEvent) -> (r: (PollState, PollAction))
    requires
        event_fits(state, event),
    ensures
        r == spec_step(state, event),
        forall|ns: u64, elapsed_nanos: u128|
            state == (PollState::Sleeping { ns }) && event == (PollEvent::Woke { elapsed_nanos })
                ==> r == (if elapsed_nanos % 0x1_0000_0000_0000_0000 > ns {
                    (PollState::Done, PollAction::Finish)
                } else {
                    (
                        PollState::AwaitingStart {
                            ns: (ns - elapsed_nanos % 0x1_0000_0000_0000_0000) as u64,
                        },
                        PollAction::ReadClock,
                    )
                }),
        forall|ns: u64, now: u64|
            state == (PollState::AwaitingStart { ns }) && event == (PollEvent::Clock { now })
                ==> r == (PollState::Polling { start: now, ns }, PollAction::ReadClock),
        forall|start: u64, ns: u64, now: u64|
            state == (PollState::Polling { start, ns }) && event == (PollEvent::Clock { now })
                ==> r == (if now - start < ns {
                    (PollState::Polling { start, ns }, PollAction::Spin)
                } else {
                    (PollState::Done, PollAction::Finish)
                }),
{
    match (state, event) {
        (PollState::Sleeping { ns }, PollEvent::Woke { elapsed_nanos }) => {
            #[verifier::truncate]
            let elapsed = elapsed_nanos as u64;
            assert(elapsed == elapsed_nanos % 0x1_0000_0000_0000_0000) by (bit_vector)
                requires
                    elapsed == elapsed_nanos as u64,
            ;
            if elapsed > ns {
                (PollState::Done, PollAction::Finish)
            } else {
                (PollState::AwaitingStart { ns: ns - elapsed }, PollAction::ReadClock)
            }
        },
        (PollState::AwaitingStart { ns }, PollEvent::Clock { now }) => (
            PollState::Polling { start: now, ns },
            PollAction::ReadClock,
        ),
        (PollState::Polling { start, ns }, PollEvent::Clock { now }) => {
            if now - start < ns {
                (PollState::Polling { start, ns }, PollAction::Spin)
            } else {
                (PollState::Done, PollAction::Finish)
            }
        },
        _ => (state, PollAction::Finish),
    }
}

/// Every action the machine asks for fits the state it leaves the wait in,
/// both when the wait begins and after each step the caller may take.
pub proof fn lemma_actions_fit_states(ns: u64, threshold: u64, state: PollState, event: PollEvent)
    requires
        event_fits(state, event),
    ensures
        action_fits(spec_start(ns, threshold).0, spec_start(ns, threshold).1),
        action_fits(spec_step(state, event).0, spec_step(state, event).1),
{
}

/// The wait sleeps for `ns - threshold` nanoseconds and busy polls for the
/// rest: when the sleep lasts exactly as long as asked, the poll that
/// follows lasts `threshold` nanoseconds.
pub proof fn lemma_sleep_then_poll_threshold(ns: u64, threshold: u64)
    requires
        ns > threshold,
    ensures
        spec_start(ns, threshold) == (
            PollState::Sleeping { ns },
            PollAction::Sleep { nanos: (ns - threshold) as u64 },
        ),
        spec_step(
            PollState::Sleeping { ns },
            PollEvent::Woke { elapsed_nanos: (ns - threshold) as u128 },
        ) == (PollState::AwaitingStart { ns: threshold }, PollAction::ReadClock),
{
    assert(((ns - threshold) as u128) as u64 == (ns - threshold) as u64);
}

/// The time slept and the time left to poll add up to the time asked for:
/// whatever a sleep took, either it overran what was left and the wait is
/// over, or the poll covers exactly the remainder.
pub proof fn lemma_sleep_and_poll_cover_wait(ns: u64, elapsed_nanos: u128)
    ensures
        ({
            let r = spec_step(PollState::Sleeping { ns }, PollEvent::Woke { elapsed_nanos });
            let elapsed = elapsed_nanos as u64;
            &&& elapsed > ns ==> r == (PollState::Done, PollAction::Finish)
            &&& elapsed <= ns ==> (r.0 matches PollState::AwaitingStart { ns: rest } && rest + elapsed == ns)
        }),
{
}

/// The busy poll never ends early and never runs past its budget: from the
/// poll, the wait is over exactly when the clock has advanced by at least
/// the budget since the poll started, and otherwise it keeps polling from
/// the same start.
pub proof fn lemma_poll_ends_at_budget(start: u64, ns: u64, now: u64)
    requires
        start <= now,
    ensures
        spec_step(PollState::Polling { start, ns }, PollEvent::Clock { now }).1 == PollAction::Finish
            <==> now - start >= ns,
        now - start < ns ==> spec_step(PollState::Polling { start, ns }, PollEvent::Clock { now })
            == (PollState::Polling { start, ns }, PollAction::Spin),
{
}

/// A wait at or below the threshold never sleeps: it busy polls for all of
/// its `ns` nanoseconds, from the first clock reading on.
pub proof fn lemma_short_wait_polls_all_of_it(ns: u64, threshold: u64, now: u64)
    requires
        0 < ns <= threshold,
    ensures
        spec_start(ns, threshold) == (PollState::AwaitingStart { ns }, PollAction::ReadClock),
        spec_step(spec_start(ns, threshold).0, PollEvent::Clock { now })
            == (PollState::Polling { start: now, ns }, PollAction::ReadClock),
{
}

/// The busy poll's budget is exactly the time left when it was about to
/// start, and it is counted from the clock reading that starts it.
pub proof fn lemma_poll_budget_is_time_left(ns: u64, now: u64)
    ensures
        spec_step(PollState::AwaitingStart { ns }, PollEvent::Clock { now })
            == (PollState::Polling { start: now, ns }, PollAction::ReadClock),
{
}

/// A sleep that lasts exactly as long as asked is followed by a busy poll of
/// `threshold` nanoseconds, counted from the next clock reading.
pub proof fn lemma_exact_sleep_then_poll_threshold_from_clock(ns: u64, threshold: u64, now: u64)
    requires
        ns > threshold,
    ensures
        ({
            let slept = spec_step(
                spec_start(ns, threshold).0,
                PollEvent::Woke { elapsed_nanos: (ns - threshold) as u128 },
            );
            spec_step(slept.0, PollEvent::Clock { now })
                == (PollState::Polling { start: now, ns: threshold }, PollAction::ReadClock)
        }),
{
    assert(((ns - threshold) as u128) as u64 == (ns - threshold) as u64);
}

} // verus!
