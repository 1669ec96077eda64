//! The course of the monitor: how it connects to the server, and what each round of its main loop
//! does.
//!
//! The monitor decides; the program around it acts. Every [`Action`] is answered with an
//! [`Event`], and [`Monitor::step`] turns that answer into the next action.
use crate::command::{request_for, PulseCommand, Request};
use crate::inventory::{Inventory, InventoryView};
use crate::server::{Facility, Report};
use crate::streams::StreamSnapshot;
use vstd::prelude::*;

verus! {

/// How long after the last one a periodic refresh is due, in nanoseconds.
pub const REFRESH_NANOS: u128 = 1_000_000_000;

/// How long the monitor rests between two rounds, in milliseconds.
pub const REST_MILLIS: u64 = 50;

/// What came of one iteration of the server's main loop.
#[derive(Debug, Clone, Copy, PartialEq, Eq, Structural)]
pub enum Iteration {
    Success,
    Quit,
    Failed,
}

/// The state of the connection to the server.
#[derive(Debug, Clone, Copy, PartialEq, Eq, Structural)]
pub enum ContextState {
    Unconnected,
    Connecting,
    Authorizing,
    SettingName,
    Ready,
    Failed,
    Terminated,
}

/// The state of a query.
#[derive(Debug, Clone, Copy, PartialEq, Eq, Structural)]
pub enum OperationState {
    Running,
    Done,
    Cancelled,
}

/// The queries of a refresh, in their order.
#[derive(Debug, Clone, Copy, PartialEq, Eq, Structural)]
pub enum Query {
    /// The server itself, for the name of the default sink.
    Server,
    /// The default sink, for the master volume.
    DefaultSink,
    /// The playback streams.
    SinkInputs,
    /// The output devices.
    Sinks,
    /// The input devices.
    Sources,
    /// The recording streams.
    SourceOutputs,
}

/// Why the monitor has stopped.
#[derive(Debug, Clone, Copy, PartialEq, Eq, Structural)]
pub enum StopReason {
    /// There is no main loop.
    NoMainloop,
    /// There is no context.
    NoContext,
    /// The connection could not be started.
    ConnectFailed,
    /// The main loop failed before the connection was ready.
    IterateFailed,
    /// The connection failed before it was ready.
    ContextFailed,
    /// The main loop ended.
    MainloopEnded,
}

/// What the monitor is doing.
#[derive(Debug, Clone, Copy, PartialEq, Eq, Structural)]
pub enum Stage {
    /// Creating the main loop.
    CreateMainloop,
    /// Creating the context.
    CreateContext,
    /// Starting to connect.
    Connect,
    /// Waiting for news of the connection.
    AwaitReady,
    /// Looking whether the connection is ready.
    CheckReady,
    /// Subscribing to changes.
    Subscribe,
    /// Asking for the default sink a first time, without waiting for the answer.
    AskServer,
    /// Starting the timer of the periodic refresh.
    StartTimer,
    /// Beginning a round with an iteration of the main loop.
    Iterate,
    /// Looking whether a periodic refresh is due.
    CheckTimer,
    /// Starting the timer anew, since a periodic refresh is due.
    RestartTimer,
    /// Looking for a command.
    ReceiveCommand,
    /// Carrying out a command.
    Perform(Request),
    /// Sending a query of a refresh.
    Ask(Query),
    /// Looking whether a query is answered.
    CheckOperation(Query),
    /// Waiting for the answer to a query.
    AwaitOperation(Query),
    /// Publishing the snapshot of a refresh.
    Publish,
    /// Resting at the end of a round.
    Rest,
    /// Stopped for good.
    Stopped(StopReason),
}

/// What the program around the monitor is asked to do next.
#[derive(Debug)]
pub enum Action {
    /// Create the main loop; answered with [`Event::MainloopCreated`].
    CreateMainloop,
    /// Create the context; answered with [`Event::ContextCreated`].
    CreateContext,
    /// Start to connect; answered with [`Event::Connected`].
    Connect,
    /// Run one iteration of the main loop, which may wait for the server if `block` is set;
    /// answered with [`Event::Iterated`].
    Iterate { block: bool },
    /// Read the state of the connection; answered with [`Event::Context`].
    ReadContext,
    /// Subscribe to changes in [`interests`]; answered with [`Event::Done`].
    Subscribe,
    /// Send a query; answered with [`Event::Done`] as soon as it is sent.
    Ask(Query),
    /// Send a query for the sink of that name; answered with [`Event::Done`] as soon as it is
    /// sent.
    AskSink(String),
    /// Read the state of the last query; answered with [`Event::Operation`].
    ReadOperation,
    /// Start the timer anew; answered with [`Event::Done`].
    StartTimer,
    /// Read the timer; answered with [`Event::Elapsed`].
    ReadTimer,
    /// Look for a command without waiting; answered with [`Event::Command`] or
    /// [`Event::NoCommand`].
    ReceiveCommand,
    /// Send a request to the server; answered with [`Event::Done`].
    Perform(Request),
    /// Hand a snapshot to the user interface, if it is still there; answered with
    /// [`Event::Done`] either way.
    Publish(StreamSnapshot),
    /// Rest; answered with [`Event::Done`].
    Rest { millis: u64 },
    /// Stop.
    Stop(StopReason),
}

/// How an action went.
#[derive(Debug)]
pub enum Event {
    MainloopCreated(bool),
    ContextCreated(bool),
    Connected(bool),
    Iterated(Iteration),
    Context(ContextState),
    Operation(OperationState),
    /// Nanoseconds since the timer was started.
    Elapsed(u128),
    Command(PulseCommand),
    NoCommand,
    Done,
}

/// The stage after the answer to a query, or after the wait for it was given up.
pub open spec fn after_query(query: Query, default_sink_known: bool) -> Stage {
    match query {
        Query::Server => if default_sink_known {
            Stage::Ask(Query::DefaultSink)
        } else {
            Stage::Ask(Query::SinkInputs)
        },
        Query::DefaultSink => Stage::Ask(Query::SinkInputs),
        Query::SinkInputs => Stage::Ask(Query::Sinks),
        Query::Sinks => Stage::Ask(Query::Sources),
        Query::Sources => Stage::Ask(Query::SourceOutputs),
        Query::SourceOutputs => Stage::Publish,
    }
}

/// The stage that an event leads to; none where the event answers no action of the stage.
pub open spec fn next_stage(stage: Stage, event: Event, inventory: InventoryView) -> Option<Stage> {
    let default_sink_known = inventory.default_sink.len() > 0;
    match (stage, event) {
        (Stage::CreateMainloop, Event::MainloopCreated(created)) => Some(
            if created {
                Stage::CreateContext
            } else {
                Stage::Stopped(StopReason::NoMainloop)
            },
        ),
        (Stage::CreateContext, Event::ContextCreated(created)) => Some(
            if created {
                Stage::Connect
            } else {
                Stage::Stopped(StopReason::NoContext)
            },
        ),
        (Stage::Connect, Event::Connected(connecting)) => Some(
            if connecting {
                Stage::AwaitReady
            } else {
                Stage::Stopped(StopReason::ConnectFailed)
            },
        ),
        (Stage::AwaitReady, Event::Iterated(iteration)) => Some(
            if iteration == Iteration::Success {
                Stage::CheckReady
            } else {
                Stage::Stopped(StopReason::IterateFailed)
            },
        ),
        (Stage::CheckReady, Event::Context(state)) => Some(
            match state {
                ContextState::Ready => Stage::Subscribe,
                ContextState::Failed | ContextState::Terminated => Stage::Stopped(
                    StopReason::ContextFailed,
                ),
                _ => Stage::AwaitReady,
            },
        ),
        (Stage::Subscribe, Event::Done) => Some(Stage::AskServer),
        (Stage::AskServer, Event::Done) => Some(Stage::StartTimer),
        (Stage::StartTimer, Event::Done) => Some(Stage::Iterate),
        (Stage::Iterate, Event::Iterated(iteration)) => Some(
            if iteration == Iteration::Success {
                Stage::CheckTimer
            } else {
                Stage::Stopped(StopReason::MainloopEnded)
            },
        ),
        (Stage::CheckTimer, Event::Elapsed(nanos)) => Some(
            if nanos > REFRESH_NANOS {
                Stage::RestartTimer
            } else {
                Stage::ReceiveCommand
            },
        ),
        (Stage::RestartTimer, Event::Done) => Some(Stage::ReceiveCommand),
        (Stage::ReceiveCommand, Event::Command(command)) => Some(
            Stage::Perform(crate::command::requested(command)),
        ),
        (Stage::Perform(_), Event::Done) => Some(Stage::ReceiveCommand),
        (Stage::ReceiveCommand, Event::NoCommand) => Some(
            if inventory.needs_refresh {
                Stage::Ask(Query::Server)
            } else {
                Stage::Rest
            },
        ),
        (Stage::Ask(query), Event::Done) => Some(Stage::CheckOperation(query)),
        (Stage::CheckOperation(query), Event::Operation(state)) => Some(
            if state == OperationState::Running {
                Stage::AwaitOperation(query)
            } else {
                after_query(query, default_sink_known)
            },
        ),
        (Stage::AwaitOperation(query), Event::Iterated(iteration)) => Some(
            if iteration == Iteration::Success {
                Stage::CheckOperation(query)
            } else {
                after_query(query, default_sink_known)
            },
        ),
        (Stage::Publish, Event::Done) => Some(Stage::Rest),
        (Stage::Rest, Event::Done) => Some(Stage::Iterate),
        _ => None,
    }
}

/// The inventory once a stage has begun: the timer and every command call for a refresh, a refresh
/// begins with that call met, and each list is emptied before it is asked for.
pub open spec fn entered(stage: Stage, inventory: InventoryView) -> InventoryView {
    match stage {
        Stage::RestartTimer | Stage::Perform(_) => InventoryView {
            needs_refresh: true,
            ..inventory
        },
        Stage::Ask(Query::Server) => InventoryView { needs_refresh: false, ..inventory },
        Stage::Ask(Query::SinkInputs) => InventoryView { apps: Map::empty(), ..inventory },
        Stage::Ask(Query::Sinks) => InventoryView { sinks: Seq::empty(), ..inventory },
        Stage::Ask(Query::Sources) => InventoryView { sources: Seq::empty(), ..inventory },
        Stage::Ask(Query::SourceOutputs) => InventoryView {
            recorders: Map::empty(),
            ..inventory
        },
        _ => inventory,
    }
}

/// Whether `action` is what a stage asks for.
pub open spec fn is_asked(stage: Stage, inventory: InventoryView, action: Action) -> bool {
    match stage {
        Stage::CreateMainloop => action is CreateMainloop,
        Stage::CreateContext => action is CreateContext,
        Stage::Connect => action is Connect,
        Stage::AwaitReady | Stage::AwaitOperation(_) => action == (Action::Iterate { block: true }),
        Stage::CheckReady => action is ReadContext,
        Stage::Subscribe => action is Subscribe,
        Stage::AskServer => action == Action::Ask(Query::Server),
        Stage::StartTimer | Stage::RestartTimer => action is StartTimer,
        Stage::Iterate => action == (Action::Iterate { block: false }),
        Stage::CheckTimer => action is ReadTimer,
        Stage::ReceiveCommand => action is ReceiveCommand,
        Stage::Perform(request) => action == Action::Perform(request),
        Stage::Ask(Query::DefaultSink) => action matches Action::AskSink(name) && name@
            == inventory.default_sink,
        Stage::Ask(query) => action == Action::Ask(query),
        Stage::CheckOperation(_) => action is ReadOperation,
        Stage::Publish => action matches Action::Publish(snapshot) && inventory.is_shown_by(
            snapshot@,
        ),
        Stage::Rest => action == (Action::Rest { millis: REST_MILLIS }),
        Stage::Stopped(reason) => action == Action::Stop(reason),
    }
}

/// The facilities whose changes the monitor subscribes to.
pub open spec fn interests_list() -> Seq<Facility> {
    seq![Facility::SinkInput, Facility::Sink, Facility::SourceOutput, Facility::Source]
}

/// The facilities whose changes the monitor subscribes to.
pub fn interests() -> (facilities: Vec<Facility>)
    ensures
        facilities@ == interests_list(),
{
    let facilities = vec![
        Facility::SinkInput,
        Facility::Sink,
        Facility::SourceOutput,
        Facility::Source,
    ];
    assert(facilities@ =~= interests_list());
    facilities
}

/// The monitor: where it stands, and what it knows.
pub struct Monitor {
    stage: Stage,
    inventory: Inventory,
}

/// What a monitor holds.
#[verifier::ext_equal]
pub struct MonitorView {
    pub stage: Stage,
    pub inventory: InventoryView,
}

impl View for Monitor {
    type V = MonitorView;

    closed spec fn view(&self) -> MonitorView {
        MonitorView { stage: self.stage, inventory: self.inventory@ }
    }
}

impl MonitorView {
    /// A monitor that has not done anything yet.
    pub open spec fn initial() -> Self {
        MonitorView { stage: Stage::CreateMainloop, inventory: InventoryView::initial() }
    }

    /// The monitor once it has entered a stage.
    pub open spec fn at(self, stage: Stage) -> Self {
        MonitorView { stage, inventory: entered(stage, self.inventory) }
    }
}

/// The stage after the answer to a query, or after the wait for it was given up.
fn stage_after_query(query: Query, default_sink_known: bool) -> (stage: Stage)
    ensures
        stage == after_query(query, default_sink_known),
{
    match query {
        Query::Server => if default_sink_known {
            Stage::Ask(Query::DefaultSink)
        } else {
            Stage::Ask(Query::SinkInputs)
        },
        Query::DefaultSink => Stage::Ask(Query::SinkInputs),
        Query::SinkInputs => Stage::Ask(Query::Sinks),
        Query::Sinks => Stage::Ask(Query::Sources),
        Query::Sources => Stage::Ask(Query::SourceOutputs),
        Query::SourceOutputs => Stage::Publish,
    }
}

impl Monitor {
    /// A monitor that knows nothing yet, and its first action.
    pub fn launch() -> (launched: (Self, Action))
        ensures
            launched.0@ == MonitorView::initial(),
            launched.0@.inventory.wf(),
            is_asked(Stage::CreateMainloop, launched.0@.inventory, launched.1),
    {
        let monitor = Monitor { stage: Stage::CreateMainloop, inventory: Inventory::new() };
        (monitor, Action::CreateMainloop)
    }

    /// Where the monitor stands.
    pub fn stage(&self) -> (stage: Stage)
        ensures
            stage == self@.stage,
    {
        self.stage
    }

    /// Takes note of a report of the server, which may come in at any time.
    pub fn hear(&mut self, report: Report)
        ensures
            final(self)@ == (MonitorView {
                inventory: old(self)@.inventory.after_report(report),
                ..old(self)@
            }),
            old(self)@.inventory.wf() ==> final(self)@.inventory.wf(),
    {
        self.inventory.hear(report);
    }

    /// Decides what comes next after the last action was answered with `event`. An event that does
    /// not answer the last action is passed over.
    pub fn step(&mut self, event: Event) -> (action: Option<Action>)
        requires
            old(self)@.inventory.wf(),
        ensures
            match next_stage(old(self)@.stage, event, old(self)@.inventory) {
                Some(stage) => {
                    &&& final(self)@ == old(self)@.at(stage)
                    &&& action matches Some(action) && is_asked(
                        stage,
                        final(self)@.inventory,
                        action,
                    )
                },
                None => final(self)@ == old(self)@ && action is None,
            },
            final(self)@.inventory.wf(),
    {
        match self.decide(event) {
            Some(stage) => Some(self.enter(stage)),
            None => None,
        }
    }

    /// The stage that an event leads to.
    fn decide(&self, event: Event) -> (stage: Option<Stage>)
        ensures
            stage == next_stage(self@.stage, event, self@.inventory),
    {
        let stage = match (self.stage, event) {
            (Stage::CreateMainloop, Event::MainloopCreated(created)) => if created {
                Stage::CreateContext
            } else {
                Stage::Stopped(StopReason::NoMainloop)
            },
            (Stage::CreateContext, Event::ContextCreated(created)) => if created {
                Stage::Connect
            } else {
                Stage::Stopped(StopReason::NoContext)
            },
            (Stage::Connect, Event::Connected(connecting)) => if connecting {
                Stage::AwaitReady
            } else {
                Stage::Stopped(StopReason::ConnectFailed)
            },
            (Stage::AwaitReady, Event::Iterated(iteration)) => match iteration {
                Iteration::Success => Stage::CheckReady,
                _ => Stage::Stopped(StopReason::IterateFailed),
            },
            (Stage::CheckReady, Event::Context(state)) => match state {
                ContextState::Ready => Stage::Subscribe,
                ContextState::Failed | ContextState::Terminated => Stage::Stopped(
                    StopReason::ContextFailed,
                ),
                _ => Stage::AwaitReady,
            },
            (Stage::Subscribe, Event::Done) => Stage::AskServer,
            (Stage::AskServer, Event::Done) => Stage::StartTimer,
            (Stage::StartTimer, Event::Done) => Stage::Iterate,
            (Stage::Iterate, Event::Iterated(iteration)) => match iteration {
                Iteration::Success => Stage::CheckTimer,
                _ => Stage::Stopped(StopReason::MainloopEnded),
            },
            (Stage::CheckTimer, Event::Elapsed(nanos)) => if nanos > REFRESH_NANOS {
                Stage::RestartTimer
            } else {
                Stage::ReceiveCommand
            },
            (Stage::RestartTimer, Event::Done) => Stage::ReceiveCommand,
            (Stage::ReceiveCommand, Event::Command(command)) => Stage::Perform(
                request_for(command),
            ),
            (Stage::Perform(_), Event::Done) => Stage::ReceiveCommand,
            (Stage::ReceiveCommand, Event::NoCommand) => if self.inventory.needs_refresh() {
                Stage::Ask(Query::Server)
            } else {
                Stage::Rest
            },
            (Stage::Ask(query), Event::Done) => Stage::CheckOperation(query),
            (Stage::CheckOperation(query), Event::Operation(state)) => match state {
                OperationState::Running => Stage::AwaitOperation(query),
                _ => stage_after_query(query, self.knows_default_sink()),
            },
            (Stage::AwaitOperation(query), Event::Iterated(iteration)) => match iteration {
                Iteration::Success => Stage::CheckOperation(query),
                _ => stage_after_query(query, self.knows_default_sink()),
            },
            (Stage::Publish, Event::Done) => Stage::Rest,
            (Stage::Rest, Event::Done) => Stage::Iterate,
            _ => {
                return None;
            },
        };
        Some(stage)
    }

    /// Whether the server has named a default sink.
    fn knows_default_sink(&self) -> (known: bool)
        ensures
            known == (self@.inventory.default_sink.len() > 0),
    {
        !self.inventory.default_sink().as_str().is_empty()
    }

    /// Enters a stage: brings the inventory up to date, and says what to do.
    fn enter(&mut self, stage: Stage) -> (action: Action)
        requires
            old(self)@.inventory.wf(),
        ensures
            final(self)@ == old(self)@.at(stage),
            final(self)@.inventory.wf(),
            is_asked(stage, final(self)@.inventory, action),
    {
        self.stage = stage;
        match stage {
            Stage::CreateMainloop => Action::CreateMainloop,
            Stage::CreateContext => Action::CreateContext,
            Stage::Connect => Action::Connect,
            Stage::AwaitReady | Stage::AwaitOperation(_) => Action::Iterate { block: true },
            Stage::CheckReady => Action::ReadContext,
            Stage::Subscribe => Action::Subscribe,
            Stage::AskServer => Action::Ask(Query::Server),
            Stage::StartTimer => Action::StartTimer,
            Stage::RestartTimer => {
                self.inventory.set_needs_refresh(true);
                Action::StartTimer
            },
            Stage::Iterate => Action::Iterate { block: false },
            Stage::CheckTimer => Action::ReadTimer,
            Stage::ReceiveCommand => Action::ReceiveCommand,
            Stage::Perform(request) => {
                self.inventory.set_needs_refresh(true);
                Action::Perform(request)
            },
            Stage::Ask(query) => {
                match query {
                    Query::Server => self.inventory.set_needs_refresh(false),
                    Query::DefaultSink => {
                        return Action::AskSink(self.inventory.default_sink());
                    },
                    Query::SinkInputs => self.inventory.clear_apps(),
                    Query::Sinks => self.inventory.clear_sinks(),
                    Query::Sources => self.inventory.clear_sources(),
                    Query::SourceOutputs => self.inventory.clear_recorders(),
                }
                Action::Ask(query)
            },
            Stage::CheckOperation(_) => Action::ReadOperation,
            Stage::Publish => Action::Publish(self.inventory.snapshot()),
            Stage::Rest => Action::Rest { millis: REST_MILLIS },
            Stage::Stopped(reason) => Action::Stop(reason),
        }
    }
}

} // verus!
