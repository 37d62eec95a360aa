//! When a device announces itself: once on connecting, once on leaving, however
//! the session ends and however many messages came between.

use vstd::prelude::*;

verus! {

/// Where a session stands.
#[derive(Clone, Copy, Debug, PartialEq, Eq, Structural)]
pub enum Phase {
    Idle,
    Connected,
    Disconnected,
}

/// What happens to a session: it starts, a message arrives, or it is told to
/// stop (a shutdown signal or the end of the inbound stream).
#[derive(Clone, Copy, Debug, PartialEq, Eq, Structural)]
pub enum Event {
    Start,
    Message,
    Stop,
}

/// What the session must do about an event.
#[derive(Clone, Copy, Debug, PartialEq, Eq, Structural)]
pub enum Action {
    AnnounceConnected,
    Handle,
    AnnounceDisconnected,
    Ignore,
}

/// The next phase and the action for an event.
pub open spec fn lifecycle_step(p: Phase, e: Event) -> (Phase, Action) {
    match (p, e) {
        (Phase::Idle, Event::Start) => (Phase::Connected, Action::AnnounceConnected),
        (Phase::Idle, Event::Stop) => (Phase::Disconnected, Action::Ignore),
        (Phase::Connected, Event::Message) => (Phase::Connected, Action::Handle),
        (Phase::Connected, Event::Stop) => (Phase::Disconnected, Action::AnnounceDisconnected),
        _ => (p, Action::Ignore),
    }
}

/// The phase after a run of events from phase `p`.
pub open spec fn run_phase(p: Phase, events: Seq<Event>) -> Phase
    decreases events.len(),
{
    if events.len() == 0 {
        p
    } else {
        lifecycle_step(run_phase(p, events.drop_last()), events.last()).0
    }
}

/// How many times a run of events from phase `p` calls for action `a`.
pub open spec fn action_count(p: Phase, events: Seq<Event>, a: Action) -> nat
    decreases events.len(),
{
    if events.len() == 0 {
        0
    } else {
        action_count(p, events.drop_last(), a) + if lifecycle_step(
            run_phase(p, events.drop_last()),
            events.last(),
        ).1 == a {
            1nat
        } else {
            0nat
        }
    }
}

/// The connection lifecycle of one session.
pub struct Lifecycle {
    phase: Phase,
}

impl View for Lifecycle {
    type V = Phase;

    closed spec fn view(&self) -> Phase {
        self.phase
    }
}

impl Lifecycle {
    /// A session that has not started.
    pub fn new() -> (r: Lifecycle)
        ensures
            r@ == Phase::Idle,
    {
        Lifecycle { phase: Phase::Idle }
    }

    /// Takes an event and says what to do about it.
    pub fn on_event(&mut self, e: Event) -> (r: Action)
        ensures
            (final(self)@, r) == lifecycle_step(old(self)@, e),
    {
        match (self.phase, e) {
            (Phase::Idle, Event::Start) => {
                self.phase = Phase::Connected;
                Action::AnnounceConnected
            },
            (Phase::Idle, Event::Stop) => {
                self.phase = Phase::Disconnected;
                Action::Ignore
            },
            (Phase::Connected, Event::Message) => Action::Handle,
            (Phase::Connected, Event::Stop) => {
                self.phase = Phase::Disconnected;
                Action::AnnounceDisconnected
            },
            _ => Action::Ignore,
        }
    }

    /// Whether the session is connected and handling messages.
    pub fn is_running(&self) -> (r: bool)
        ensures
            r == (self@ == Phase::Connected),
    {
        match self.phase {
            Phase::Connected => true,
            _ => false,
        }
    }
}

proof fn lemma_started_never_idle(events: Seq<Event>)
    requires
        events.len() > 0,
        events[0] == Event::Start,
    ensures
        run_phase(Phase::Idle, events) != Phase::Idle,
    decreases events.len(),
{
    if events.len() > 1 {
        lemma_started_never_idle(events.drop_last());
    } else {
        assert(events.drop_last().len() == 0);
    }
}

proof fn lemma_stopped_stays(events: Seq<Event>, i: int)
    requires
        events.len() > 0,
        events[0] == Event::Start,
        0 <= i < events.len(),
        events[i] == Event::Stop,
    ensures
        run_phase(Phase::Idle, events) == Phase::Disconnected,
    decreases events.len(),
{
    if i == events.len() - 1 {
        if events.len() > 1 {
            lemma_started_never_idle(events.drop_last());
        }
    } else {
        lemma_stopped_stays(events.drop_last(), i);
    }
}

proof fn lemma_counts(events: Seq<Event>)
    ensures
        ({
            let p = run_phase(Phase::Idle, events);
            let c = action_count(Phase::Idle, events, Action::AnnounceConnected);
            let d = action_count(Phase::Idle, events, Action::AnnounceDisconnected);
            &&& p == Phase::Idle ==> c == 0 && d == 0
            &&& p == Phase::Connected ==> c == 1 && d == 0
            &&& p == Phase::Disconnected ==> d == c && c <= 1
            &&& events.len() > 0 && events[0] == Event::Start ==> c == 1
        }),
    decreases events.len(),
{
    if events.len() > 0 {
        lemma_counts(events.drop_last());
        if events.len() > 1 && events[0] == Event::Start {
            lemma_started_never_idle(events.drop_last());
        }
    }
}

/// A session that starts and is told to stop at some point calls for exactly
/// one connection notice and exactly one disconnection notice, whatever
/// messages and further stops come in between or after.
pub proof fn law_one_notice_each(events: Seq<Event>, i: int)
    requires
        events.len() > 0,
        events[0] == Event::Start,
        0 <= i < events.len(),
        events[i] == Event::Stop,
    ensures
        action_count(Phase::Idle, events, Action::AnnounceConnected) == 1,
        action_count(Phase::Idle, events, Action::AnnounceDisconnected) == 1,
        run_phase(Phase::Idle, events) == Phase::Disconnected,
{
    lemma_counts(events);
    lemma_stopped_stays(events, i);
}

} // verus!
