//! The lifecycle of the streaming server: a listener is bound while the
//! device is connected and at no other time.
//!
//! The state machine decides; its driver performs. The driver awaits,
//! sleeps, binds and unbinds, and reports each outcome as an [`Event`]; the
//! machine answers with a [`Step`] that says which listener, if any, must be
//! destroyed at once and what to do next. The machine owns the listener
//! while it serves, so a listener exists exactly as long as the `Serving`
//! state that holds it.

use crate::status::WifiState;
use vstd::prelude::*;

verus! {

/// How long an idle server waits before it looks at the connectivity cell
/// again, in milliseconds.
pub const POLL_DELAY_MS: u64 = 500;

/// How long an idle server waits after a failed start before it tries
/// again, in milliseconds.
pub const RETRY_DELAY_MS: u64 = 500;

/// What the driver reports to the machine.
#[derive(Debug, PartialEq, Eq)]
pub enum Event<L> {
    /// The connectivity cell was read: its latest value, or `None` if
    /// nothing has been published yet.
    Observed(Option<WifiState>),
    /// A start succeeded: the listener is bound and its routes are
    /// installed.
    Started(L),
    /// A start failed: no listener was bound, or its routes could not be
    /// installed and it was destroyed again.
    StartFailed,
}

/// What the driver does after a step, once it has destroyed the listener
/// that the step released.
#[derive(Clone, Copy, Debug, PartialEq, Eq)]
pub enum Next {
    /// Read the connectivity cell now and report `Observed`.
    Poll,
    /// Sleep for the given number of milliseconds, then read the
    /// connectivity cell and report `Observed`.
    WaitThenPoll(u64),
    /// Bind a listener, install the routes and report `Started` or
    /// `StartFailed`.
    Start,
    /// Suspend until the connectivity cell changes and report `Observed`
    /// with the new value.
    AwaitChange,
}

/// The machine's answer to one event.
#[derive(Debug, PartialEq, Eq)]
pub struct Step<L> {
    /// A listener that must be destroyed, and its port released, before
    /// anything else happens.
    pub release: Option<L>,
    /// What to do then.
    pub next: Next,
}

/// The two states of the server. `Idle` remembers whether it has asked
/// for a start whose outcome is still to come.
#[derive(Debug, PartialEq, Eq)]
pub enum Lifecycle<L> {
    Idle { starting: bool },
    Serving { listener: L },
}

/// The transition function: the state after `event` and the answer to it.
pub open spec fn spec_step<L>(state: Lifecycle<L>, event: Event<L>) -> (Lifecycle<L>, Step<L>) {
    match state {
        Lifecycle::Serving { listener } => match event {
            Event::Observed(Some(WifiState::Disconnected)) => (
                Lifecycle::Idle { starting: false },
                Step { release: Some(listener), next: Next::Poll },
            ),
            Event::Observed(_) => (state, Step { release: None, next: Next::AwaitChange }),
            Event::Started(extra) => (state, Step { release: Some(extra), next: Next::AwaitChange }),
            Event::StartFailed => (state, Step { release: None, next: Next::AwaitChange }),
        },
        Lifecycle::Idle { starting } => match event {
            Event::Observed(Some(WifiState::Connected)) => (
                Lifecycle::Idle { starting: true },
                Step { release: None, next: Next::Start },
            ),
            Event::Observed(_) => (
                Lifecycle::Idle { starting: false },
                Step { release: None, next: Next::WaitThenPoll(POLL_DELAY_MS) },
            ),
            Event::Started(listener) => if starting {
                (Lifecycle::Serving { listener }, Step { release: None, next: Next::AwaitChange })
            } else {
                (state, Step { release: Some(listener), next: Next::Poll })
            },
            Event::StartFailed => (
                Lifecycle::Idle { starting: false },
                Step { release: None, next: Next::WaitThenPoll(RETRY_DELAY_MS) },
            ),
        },
    }
}

impl<L> Lifecycle<L> {
    /// The state at power-up: idle, with no start under way.
    pub open spec fn initial() -> Self {
        Lifecycle::Idle { starting: false }
    }

    /// The number of listeners that the state holds: one while serving,
    /// none while idle.
    pub open spec fn held(self) -> nat {
        if self is Serving {
            1
        } else {
            0
        }
    }

    /// The state at power-up.
    pub fn new() -> (state: Self)
        ensures
            state == Self::initial(),
    {
        Lifecycle::Idle { starting: false }
    }

    /// Whether a listener is bound.
    pub fn is_serving(&self) -> (serving: bool)
        ensures
            serving == (*self is Serving),
    {
        match self {
            Lifecycle::Serving { .. } => true,
            Lifecycle::Idle { .. } => false,
        }
    }

    /// Takes one event and returns the next state with the answer.
    ///
    /// While serving, only an observed `Disconnected` ends the service, and
    /// it hands the listener back for destruction. While idle, an observed
    /// `Connected` asks for a start; any other observation waits
    /// `POLL_DELAY_MS`; a failed start waits `RETRY_DELAY_MS`. A listener
    /// that arrives when none was asked for, or when one is already held, is
    /// handed straight back.
    pub fn step(self, event: Event<L>) -> (r: (Self, Step<L>))
        ensures
            r == spec_step(self, event),
    {
        match self {
            Lifecycle::Serving { listener } => match event {
                Event::Observed(Some(WifiState::Disconnected)) => (
                    Lifecycle::Idle { starting: false },
                    Step { release: Some(listener), next: Next::Poll },
                ),
                Event::Observed(_) => (
                    Lifecycle::Serving { listener },
                    Step { release: None, next: Next::AwaitChange },
                ),
                Event::Started(extra) => (
                    Lifecycle::Serving { listener },
                    Step { release: Some(extra), next: Next::AwaitChange },
                ),
                Event::StartFailed => (
                    Lifecycle::Serving { listener },
                    Step { release: None, next: Next::AwaitChange },
                ),
            },
            Lifecycle::Idle { starting } => match event {
                Event::Observed(Some(WifiState::Connected)) => (
                    Lifecycle::Idle { starting: true },
                    Step { release: None, next: Next::Start },
                ),
                Event::Observed(_) => (
                    Lifecycle::Idle { starting: false },
                    Step { release: None, next: Next::WaitThenPoll(POLL_DELAY_MS) },
                ),
                Event::Started(listener) => if starting {
                    (
                        Lifecycle::Serving { listener },
                        Step { release: None, next: Next::AwaitChange },
                    )
                } else {
                    (Lifecycle::Idle { starting }, Step { release: Some(listener), next: Next::Poll })
                },
                Event::StartFailed => (
                    Lifecycle::Idle { starting: false },
                    Step { release: None, next: Next::WaitThenPoll(RETRY_DELAY_MS) },
                ),
            },
        }
    }
}

/// The state after a trace of events, from `state`.
pub open spec fn run<L>(state: Lifecycle<L>, events: Seq<Event<L>>) -> Lifecycle<L>
    decreases events.len(),
{
    if events.len() == 0 {
        state
    } else {
        spec_step(run(state, events.drop_last()), events.last()).0
    }
}

/// The connectivity value observed most recently in a trace. A read that
/// found the cell empty observed no value.
pub open spec fn last_observed<L>(events: Seq<Event<L>>) -> Option<WifiState>
    decreases events.len(),
{
    if events.len() == 0 {
        None
    } else {
        match events.last() {
            Event::Observed(Some(status)) => Some(status),
            _ => last_observed(events.drop_last()),
        }
    }
}

/// The number of listeners that were created during a trace: one for each
/// `Started`.
pub open spec fn created<L>(events: Seq<Event<L>>) -> nat
    decreases events.len(),
{
    if events.len() == 0 {
        0
    } else {
        created(events.drop_last()) + if events.last() is Started {
            1nat
        } else {
            0nat
        }
    }
}

/// The number of listeners that the machine handed back for destruction
/// during a trace, from `state`.
pub open spec fn released<L>(state: Lifecycle<L>, events: Seq<Event<L>>) -> nat
    decreases events.len(),
{
    if events.len() == 0 {
        0
    } else {
        released(state, events.drop_last()) + if spec_step(
            run(state, events.drop_last()),
            events.last(),
        ).1.release is Some {
            1nat
        } else {
            0nat
        }
    }
}

/// One step neither loses nor invents a listener: the one held before and
/// the one that the event brought are, between them, the one held after and
/// the one released. In particular a step that leaves `Serving` releases
/// exactly the listener that was serving.
pub proof fn lemma_step_conserves_listeners<L>(state: Lifecycle<L>, event: Event<L>)
    ensures
        ({
            let held_before = match state {
                Lifecycle::Serving { listener } => seq![listener],
                _ => Seq::<L>::empty(),
            };
            let brought = match event {
                Event::Started(listener) => seq![listener],
                _ => Seq::<L>::empty(),
            };
            let held_after = match spec_step(state, event).0 {
                Lifecycle::Serving { listener } => seq![listener],
                _ => Seq::<L>::empty(),
            };
            let released = match spec_step(state, event).1.release {
                Some(listener) => seq![listener],
                None => Seq::<L>::empty(),
            };
            held_before + brought =~= held_after + released
        }),
        state is Serving && spec_step(state, event).0 is Idle ==> spec_step(
            state,
            event,
        ).1.release == Some(state->listener),
        spec_step(state, event).0.held() <= 1,
{
}

/// At every point of every trace, a bound listener implies that the
/// connectivity value observed most recently was `Connected`; and at most one
/// listener is bound. The trace is arbitrary: any order of observations and
/// start outcomes, asked for or not. Since every prefix of a trace is a
/// trace, this holds between any two events of a run.
pub proof fn lemma_serving_implies_connected<L>(events: Seq<Event<L>>)
    ensures
        run(Lifecycle::<L>::initial(), events).held() <= 1,
        run(Lifecycle::<L>::initial(), events) is Serving ==> last_observed(events) == Some(
            WifiState::Connected,
        ),
        run(Lifecycle::<L>::initial(), events) == (Lifecycle::<L>::Idle { starting: true })
            ==> last_observed(events) == Some(WifiState::Connected),
    decreases events.len(),
{
    if events.len() > 0 {
        lemma_serving_implies_connected(events.drop_last());
    }
}

/// An observed `Disconnected` always leaves the server idle, whatever came
/// before it.
pub proof fn lemma_disconnected_means_idle<L>(events: Seq<Event<L>>)
    requires
        events.len() > 0,
        events.last() == Event::<L>::Observed(Some(WifiState::Disconnected)),
    ensures
        run(Lifecycle::<L>::initial(), events) == (Lifecycle::<L>::Idle { starting: false }),
{
}

/// No listener leaks, however often the device connects and disconnects:
/// over any trace, every listener that was created has either been handed
/// back for destruction or is the one now serving. So the listeners alive
/// after a trace, created less released, are the one held: none while idle.
pub proof fn lemma_no_listener_leaks<L>(events: Seq<Event<L>>)
    ensures
        created(events) == released(Lifecycle::<L>::initial(), events) + run(
            Lifecycle::<L>::initial(),
            events,
        ).held(),
    decreases events.len(),
{
    if events.len() > 0 {
        lemma_no_listener_leaks(events.drop_last());
    }
}

/// Whether `event` is a report that `next` asked for.
pub open spec fn answers<L>(next: Next, event: Event<L>) -> bool {
    match next {
        Next::Poll => event is Observed,
        Next::WaitThenPoll(_) => event is Observed,
        Next::Start => event is Started || event is StartFailed,
        Next::AwaitChange => event matches Event::Observed(Some(_)),
    }
}

/// What the machine asked for last in a trace from power-up, where the
/// first thing to do is to read the connectivity cell.
pub open spec fn asked_last<L>(events: Seq<Event<L>>) -> Next {
    if events.len() == 0 {
        Next::Poll
    } else {
        spec_step(run(Lifecycle::<L>::initial(), events.drop_last()), events.last()).1.next
    }
}

/// Whether a trace from power-up is one of a driver that does as it is
/// told: every event answers what the machine asked for just before.
pub open spec fn obedient<L>(events: Seq<Event<L>>) -> bool
    decreases events.len(),
{
    events.len() == 0 || (obedient(events.drop_last()) && answers(
        asked_last(events.drop_last()),
        events.last(),
    ))
}

/// With a driver that does as it is told, a listener is created only while
/// none is bound, and is then taken into service: at no instant are there
/// two. The only listener ever handed back is the one that was serving
/// when `Disconnected` was observed.
pub proof fn lemma_one_listener_at_a_time<L>(events: Seq<Event<L>>)
    requires
        obedient(events),
    ensures
        asked_last(events) == Next::Start <==> run(Lifecycle::<L>::initial(), events) == (
        Lifecycle::<L>::Idle { starting: true }),
        asked_last(events) == Next::AwaitChange <==> run(Lifecycle::<L>::initial(), events)
            is Serving,
        events.len() > 0 && events.last() is Started ==> {
            &&& run(Lifecycle::<L>::initial(), events.drop_last()).held() == 0
            &&& run(Lifecycle::<L>::initial(), events) == (Lifecycle::<L>::Serving {
                listener: events.last()->Started_0,
            })
            &&& spec_step(
                run(Lifecycle::<L>::initial(), events.drop_last()),
                events.last(),
            ).1.release is None
        },
        events.len() > 0 && spec_step(
            run(Lifecycle::<L>::initial(), events.drop_last()),
            events.last(),
        ).1.release is Some ==> {
            &&& run(Lifecycle::<L>::initial(), events.drop_last()) is Serving
            &&& events.last() == Event::<L>::Observed(Some(WifiState::Disconnected))
        },
    decreases events.len(),
{
    if events.len() > 0 {
        lemma_one_listener_at_a_time(events.drop_last());
    }
}

} // verus!
