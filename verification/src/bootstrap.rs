//! Bringing the server up, one step at a time.
//!
//! The steps that touch a socket cannot be taken here. A [`Bootstrap`]
//! says which one is due, the caller takes it and comes back with what
//! happened, and the run ends with the one result that [`Action::Finish`]
//! carries.

use vstd::prelude::*;
use crate::outcome::{StartupError, StartupErrorView, StartupOutcome};
use crate::report::{listening_line, listening_view, LogLine, LogLineView};

verus! {

/// Where the server listens.
#[derive(Clone, Copy, Debug, PartialEq, Eq)]
pub struct Endpoint {
    /// The four parts of the IPv4 address.
    pub host: (u8, u8, u8, u8),
    pub port: u16,
}

/// What the run is waiting for.
#[derive(Clone, Copy, Debug, PartialEq, Eq, Structural)]
pub enum Phase {
    /// The listener is being bound.
    Binding,
    /// The route table is being put together.
    Assembling,
    /// The listener is asked for its address.
    Resolving,
    /// The address is being written to the log.
    Announcing,
    /// Requests are being served.
    Serving,
    /// The result has been handed out.
    Finished,
}

/// What became of the step that was due.
#[derive(Debug, PartialEq, Eq)]
pub enum Event {
    /// It was taken.
    Done,
    /// It was taken and gave the listener's address.
    Address(String),
    /// It failed, with this message.
    Failed(String),
}

/// The view of an [`Event`]: its variant, and the characters it carries.
pub enum EventView {
    Done,
    Address(Seq<char>),
    Failed(Seq<char>),
}

impl View for Event {
    type V = EventView;

    open spec fn view(&self) -> EventView {
        match self {
            Event::Done => EventView::Done,
            Event::Address(address) => EventView::Address(address@),
            Event::Failed(cause) => EventView::Failed(cause@),
        }
    }
}

/// The step that the caller is to take next.
#[derive(Debug, PartialEq, Eq)]
pub enum Action {
    /// Bind a TCP listener to the endpoint.
    Bind(Endpoint),
    /// Put the route table together.
    Assemble,
    /// Ask the listener for its local address.
    ResolveAddress,
    /// Write the line to the log.
    Announce(LogLine),
    /// Serve requests until the loop returns.
    Serve,
    /// Stop: this is the result of the run.
    Finish(Result<StartupOutcome, StartupError>),
}

/// The view of an [`Action`]: its variant, with the view of what it
/// carries.
pub enum ActionView {
    Bind(Endpoint),
    Assemble,
    ResolveAddress,
    Announce(LogLineView),
    Serve,
    Finish(Result<StartupOutcome, StartupErrorView>),
}

impl View for Action {
    type V = ActionView;

    open spec fn view(&self) -> ActionView {
        match self {
            Action::Bind(endpoint) => ActionView::Bind(*endpoint),
            Action::Assemble => ActionView::Assemble,
            Action::ResolveAddress => ActionView::ResolveAddress,
            Action::Announce(line) => ActionView::Announce(line@),
            Action::Serve => ActionView::Serve,
            Action::Finish(Ok(outcome)) => ActionView::Finish(Ok(*outcome)),
            Action::Finish(Err(error)) => ActionView::Finish(Err(error@)),
        }
    }
}

/// The loopback interface, port 8000.
pub open spec fn spec_endpoint() -> Endpoint {
    Endpoint { host: (127, 0, 0, 1), port: 8000 }
}

/// The phase and the step with which every run begins.
pub open spec fn first() -> (Phase, ActionView) {
    (Phase::Binding, ActionView::Bind(spec_endpoint()))
}

/// The error that a failure in `phase` is, where the step of that phase
/// can fail at all.
pub open spec fn failure_in(phase: Phase, cause: Seq<char>) -> Option<StartupErrorView> {
    match phase {
        Phase::Binding => Some(StartupErrorView::BindTcpListener(cause)),
        Phase::Resolving => Some(StartupErrorView::GetListenerAddress(cause)),
        Phase::Serving => Some(StartupErrorView::ServeApp(cause)),
        _ => None,
    }
}

/// The phase that follows, and the step that is then due, or `None` where
/// the event is no answer to the step that was due.
///
/// A failure ends the run with the error of the step that failed. The
/// address is an answer of the listener and of nothing else, and it is
/// announced next. `Done` takes the run on to the step that follows, and
/// ends it with `Completed` when requests were being served.
pub open spec fn next(phase: Phase, event: EventView) -> Option<(Phase, ActionView)> {
    match event {
        EventView::Failed(cause) => match failure_in(phase, cause) {
            Some(error) => Some((Phase::Finished, ActionView::Finish(Err(error)))),
            None => None,
        },
        EventView::Address(address) => if phase == Phase::Resolving {
            Some((Phase::Announcing, ActionView::Announce(listening_view(address))))
        } else {
            None
        },
        EventView::Done => match phase {
            Phase::Binding => Some((Phase::Assembling, ActionView::Assemble)),
            Phase::Assembling => Some((Phase::Resolving, ActionView::ResolveAddress)),
            Phase::Announcing => Some((Phase::Serving, ActionView::Serve)),
            Phase::Serving => Some(
                (Phase::Finished, ActionView::Finish(Ok(StartupOutcome::Completed))),
            ),
            Phase::Resolving | Phase::Finished => None,
        },
    }
}

/// The endpoint of the server: the loopback interface, port 8000.
pub fn endpoint() -> (endpoint: Endpoint)
    ensures
        endpoint == spec_endpoint(),
{
    Endpoint { host: (127, 0, 0, 1), port: 8000 }
}

/// The step that is due after `event` came in `phase`, if the event was
/// an answer.
pub open spec fn due_after(phase: Phase, event: EventView) -> Option<ActionView> {
    match next(phase, event) {
        Some((_, action)) => Some(action),
        None => None,
    }
}

/// The phase of a run after `event` came in `phase`: the one that
/// follows, or the same where the event was no answer.
pub open spec fn phase_after(phase: Phase, event: EventView) -> Phase {
    match next(phase, event) {
        Some((following, _)) => following,
        None => phase,
    }
}

/// The view of what [`Bootstrap::step`] hands out.
pub open spec fn due_view(due: Option<Action>) -> Option<ActionView> {
    match due {
        Some(action) => Some(action@),
        None => None,
    }
}

/// The phase that follows `phase` on `event`, and the step that is due
/// then.
fn advance(phase: Phase, event: Event) -> (taken: Option<(Phase, Action)>)
    ensures
        match next(phase, event@) {
            Some((following, action)) => taken matches Some(pair) && pair.0 == following
                && pair.1@ == action,
            None => taken is None,
        },
{
    match phase {
        Phase::Binding => match event {
            Event::Done => Some((Phase::Assembling, Action::Assemble)),
            Event::Failed(cause) => Some(
                (Phase::Finished, Action::Finish(Err(StartupError::BindTcpListener(cause)))),
            ),
            Event::Address(_) => None,
        },
        Phase::Assembling => match event {
            Event::Done => Some((Phase::Resolving, Action::ResolveAddress)),
            _ => None,
        },
        Phase::Resolving => match event {
            Event::Address(address) => Some(
                (Phase::Announcing, Action::Announce(listening_line(address.as_str()))),
            ),
            Event::Failed(cause) => Some(
                (Phase::Finished, Action::Finish(Err(StartupError::GetListenerAddress(cause)))),
            ),
            Event::Done => None,
        },
        Phase::Announcing => match event {
            Event::Done => Some((Phase::Serving, Action::Serve)),
            _ => None,
        },
        Phase::Serving => match event {
            Event::Done => Some(
                (Phase::Finished, Action::Finish(Ok(StartupOutcome::Completed))),
            ),
            Event::Failed(cause) => Some(
                (Phase::Finished, Action::Finish(Err(StartupError::ServeApp(cause)))),
            ),
            Event::Address(_) => None,
        },
        Phase::Finished => None,
    }
}

/// The course of a run: the phase it is in, and every step that was due
/// so far, after the caller came back with `events` one after another. An
/// event that is no answer to the step that is due changes nothing.
pub open spec fn run(events: Seq<EventView>) -> (Phase, Seq<ActionView>)
    decreases events.len(),
{
    if events.len() == 0 {
        (first().0, seq![first().1])
    } else {
        let before = run(events.drop_last());
        match next(before.0, events.last()) {
            Some((phase, action)) => (phase, before.1.push(action)),
            None => before,
        }
    }
}

/// The place of a step in the order of a run that meets no failure.
pub open spec fn place(action: ActionView) -> int {
    match action {
        ActionView::Bind(_) => 0,
        ActionView::Assemble => 1,
        ActionView::ResolveAddress => 2,
        ActionView::Announce(_) => 3,
        ActionView::Serve => 4,
        ActionView::Finish(_) => 5,
    }
}

/// The place of the step that a phase waits for.
pub open spec fn awaited(phase: Phase) -> int {
    match phase {
        Phase::Binding => 0,
        Phase::Assembling => 1,
        Phase::Resolving => 2,
        Phase::Announcing => 3,
        Phase::Serving => 4,
        Phase::Finished => 5,
    }
}

/// One run of the start-up. It begins with [`Bootstrap::start`] and knows
/// at every moment which step it waits for.
pub struct Bootstrap {
    phase: Phase,
    events: Ghost<Seq<EventView>>,
}

impl Bootstrap {
    /// Everything that the caller came back with since the run began.
    pub closed spec fn events(&self) -> Seq<EventView> {
        self.events@
    }

    /// The phase of the run after those events.
    pub open spec fn spec_phase(&self) -> Phase {
        run(self.events()).0
    }

    /// Every step that was due since the run began, the first one
    /// included.
    pub open spec fn actions(&self) -> Seq<ActionView> {
        run(self.events()).1
    }

    #[verifier::type_invariant]
    spec fn follows_its_events(&self) -> bool {
        self.phase == run(self.events@).0
    }

    /// Begins a run: nothing has happened yet, and the listener is to be
    /// bound to [`endpoint`].
    pub fn start() -> (begun: (Bootstrap, Action))
        ensures
            begun.0.events() == Seq::<EventView>::empty(),
            begun.0.spec_phase() == Phase::Binding,
            begun.1@ == ActionView::Bind(spec_endpoint()),
    {
        let run = Bootstrap { phase: Phase::Binding, events: Ghost(Seq::empty()) };
        (run, Action::Bind(endpoint()))
    }

    /// The phase that the run is in.
    #[verifier::when_used_as_spec(spec_phase)]
    pub fn phase(&self) -> (phase: Phase)
        ensures
            phase == self.spec_phase(),
    {
        proof {
            use_type_invariant(self);
        }
        self.phase
    }

    /// Takes the run one step on: the caller comes back with what became
    /// of the step that was due, and is told the step that is due now.
    ///
    /// The answer is `None`, and the run stays in its phase, where `event`
    /// is no answer to the step that was due, as is every event once the
    /// run has finished.
    pub fn step(&mut self, event: Event) -> (due: Option<Action>)
        ensures
            final(self).events() == old(self).events().push(event@),
            final(self).spec_phase() == phase_after(old(self).spec_phase(), event@),
            due_view(due) == due_after(old(self).spec_phase(), event@),
    {
        proof {
            use_type_invariant(&*self);
        }
        let ghost before = self.events@;
        let ghost events = before.push(event@);
        assert(events.drop_last() =~= before);
        match advance(self.phase, event) {
            Some((phase, action)) => {
                *self = Bootstrap { phase, events: Ghost(events) };
                Some(action)
            },
            None => {
                *self = Bootstrap { phase: self.phase, events: Ghost(events) };
                None
            },
        }
    }
}

/// What a call of [`Bootstrap::step`] does to the course of the run: an
/// event that answers the step that was due moves the run to the phase
/// that follows and adds the step that is due then; any other event
/// leaves phase and steps as they were.
pub proof fn law_step_extends_the_run(events: Seq<EventView>, event: EventView)
    ensures
        run(events.push(event)) == match next(run(events).0, event) {
            Some((phase, action)) => (phase, run(events).1.push(action)),
            None => run(events),
        },
{
    assert(events.push(event).drop_last() == events);
}

/// The steps of a run come in their order, none twice and none left out:
/// the first binds the listener to the fixed endpoint, every step but the
/// last stands at its own place, and the last is the one that the phase
/// waits for. Until the run has finished that one, too, stands at its own
/// place.
pub proof fn law_steps_come_in_order(events: Seq<EventView>)
    ensures
        ({
            let (phase, actions) = run(events);
            &&& 1 <= actions.len() <= 6
            &&& actions[0] == ActionView::Bind(spec_endpoint())
            &&& forall|i: int| 0 <= i < actions.len() - 1 ==> place(#[trigger] actions[i]) == i
            &&& place(actions.last()) == awaited(phase)
            &&& phase != Phase::Finished ==> awaited(phase) == actions.len() - 1
        }),
    decreases events.len(),
{
    if events.len() > 0 {
        law_steps_come_in_order(events.drop_last());
    }
}

/// A run has one result, and has it once: `Finish` is due in the phase
/// `Finished` and in no other, and no step before the last is a `Finish`.
pub proof fn law_one_result(events: Seq<EventView>)
    ensures
        run(events).0 == Phase::Finished <==> run(events).1.last() is Finish,
        forall|i: int| 0 <= i < run(events).1.len() - 1 ==> !(#[trigger] run(events).1[i] is Finish),
{
    law_steps_come_in_order(events);
}

/// Once a run has finished, nothing that the caller comes back with
/// changes its phase, its steps or its result.
pub proof fn law_result_is_final(events: Seq<EventView>, later: Seq<EventView>)
    requires
        run(events).0 == Phase::Finished,
    ensures
        run(events + later) == run(events),
    decreases later.len(),
{
    if later.len() == 0 {
        assert(events + later == events);
    } else {
        law_result_is_final(events, later.drop_last());
        assert((events + later).drop_last() == events + later.drop_last());
    }
}

/// Where the listener cannot be bound, the run ends there, whatever the
/// caller comes back with afterwards: its result is the bind failure with
/// that cause, and no other step was ever due, so nothing is served.
pub proof fn law_bind_failure_ends_the_run(cause: Seq<char>, later: Seq<EventView>)
    ensures
        run(seq![EventView::Failed(cause)] + later) == (
            Phase::Finished,
            seq![
                ActionView::Bind(spec_endpoint()),
                ActionView::Finish(Err(StartupErrorView::BindTcpListener(cause))),
            ],
        ),
{
    let failed = seq![EventView::Failed(cause)];
    assert(failed.drop_last() == Seq::<EventView>::empty());
    assert(run(failed.drop_last()).0 == Phase::Binding);
    assert(run(failed).1 == seq![
        ActionView::Bind(spec_endpoint()),
        ActionView::Finish(Err(StartupErrorView::BindTcpListener(cause))),
    ]);
    law_result_is_final(failed, later);
}

/// The result tells how far the run came. Requests are served only after
/// the listener was bound, the routes put together, the address found and
/// announced; the run completes, or fails to serve, only after that; and
/// the other two failures come straight after the step that failed.
pub proof fn law_result_tells_how_far(events: Seq<EventView>)
    ensures
        ({
            let actions = run(events).1;
            &&& forall|i: int|
                0 <= i < actions.len() && #[trigger] actions[i] == ActionView::Serve ==> {
                    &&& i == 4
                    &&& actions[0] == ActionView::Bind(spec_endpoint())
                    &&& actions[1] == ActionView::Assemble
                    &&& actions[2] == ActionView::ResolveAddress
                    &&& actions[3] is Announce
                }
            &&& actions.last() matches ActionView::Finish(result) ==> match result {
                Ok(_) => actions.len() == 6 && actions[4] == ActionView::Serve,
                Err(StartupErrorView::ServeApp(_)) => actions.len() == 6 && actions[4]
                    == ActionView::Serve,
                Err(StartupErrorView::GetListenerAddress(_)) => actions.len() == 4 && actions[2]
                    == ActionView::ResolveAddress,
                Err(StartupErrorView::BindTcpListener(_)) => actions.len() == 2,
            }
        }),
    decreases events.len(),
{
    law_steps_come_in_order(events);
    if events.len() > 0 {
        law_result_tells_how_far(events.drop_last());
        law_steps_come_in_order(events.drop_last());
    }
}

/// Where nothing fails, five answers take the run from the first step to
/// its end: the listener is bound, the routes are put together, the
/// address is found and announced word for word, requests are served, and
/// the result is `Completed`.
pub proof fn law_clean_run(address: Seq<char>)
    ensures
        run(
            seq![
                EventView::Done,
                EventView::Done,
                EventView::Address(address),
                EventView::Done,
                EventView::Done,
            ],
        ) == (
            Phase::Finished,
            seq![
                ActionView::Bind(spec_endpoint()),
                ActionView::Assemble,
                ActionView::ResolveAddress,
                ActionView::Announce(listening_view(address)),
                ActionView::Serve,
                ActionView::Finish(Ok(StartupOutcome::Completed)),
            ],
        ),
{
    let e5 = seq![
        EventView::Done,
        EventView::Done,
        EventView::Address(address),
        EventView::Done,
        EventView::Done,
    ];
    let e4 = e5.drop_last();
    let e3 = e4.drop_last();
    let e2 = e3.drop_last();
    let e1 = e2.drop_last();
    let e0 = e1.drop_last();
    assert(run(e0).0 == Phase::Binding);
    assert(run(e1).0 == Phase::Assembling);
    assert(run(e2).0 == Phase::Resolving);
    assert(run(e3).0 == Phase::Announcing);
    assert(run(e4).0 == Phase::Serving);
    assert(run(e5).0 == Phase::Finished);
    assert(run(e5).1 == seq![
        ActionView::Bind(spec_endpoint()),
        ActionView::Assemble,
        ActionView::ResolveAddress,
        ActionView::Announce(listening_view(address)),
        ActionView::Serve,
        ActionView::Finish(Ok(StartupOutcome::Completed)),
    ]);
}

} // verus!
