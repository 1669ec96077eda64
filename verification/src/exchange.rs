//! What the program around the monitor sees of it: which action follows on which answer.
use crate::command::PulseCommand;
use crate::course::{leads, Move};
use crate::monitor::{
    Action, ContextState, Event, Iteration, MonitorView, OperationState, Query, StopReason,
};
use vstd::prelude::*;

verus! {

/// Whether a monitor that waits for an answer to `pending` goes on with `action` once it gets
/// `event`.
pub open spec fn exchanges(
    before: MonitorView,
    pending: Action,
    event: Event,
    after: MonitorView,
    action: Action,
) -> bool {
    &&& crate::monitor::is_asked(before.stage, before.inventory, pending)
    &&& leads(before, Move::Answer(event), after)
    &&& crate::monitor::is_asked(after.stage, after.inventory, action)
}

/// Whether an event is an answer to an action.
pub open spec fn fits(pending: Action, event: Event) -> bool {
    match pending {
        Action::CreateMainloop => event is MainloopCreated,
        Action::CreateContext => event is ContextCreated,
        Action::Connect => event is Connected,
        Action::Iterate { .. } => event is Iterated,
        Action::ReadContext => event is Context,
        Action::ReadOperation => event is Operation,
        Action::ReadTimer => event is Elapsed,
        Action::ReceiveCommand => event is Command || event is NoCommand,
        Action::Stop(_) => false,
        _ => event is Done,
    }
}

/// An event is accepted if and only if it answers the pending action.
pub proof fn answers_are_accepted(before: MonitorView, pending: Action, event: Event)
    requires
        crate::monitor::is_asked(before.stage, before.inventory, pending),
    ensures
        crate::monitor::next_stage(before.stage, event, before.inventory) is Some <==> fits(
            pending,
            event,
        ),
{
}

/// A monitor starts with the main loop, with nothing known and a refresh due.
pub proof fn monitor_starts_with_the_mainloop(action: Action)
    requires
        crate::monitor::is_asked(
            MonitorView::initial().stage,
            MonitorView::initial().inventory,
            action,
        ),
    ensures
        action is CreateMainloop,
        !crate::course::is_connected(MonitorView::initial().stage),
        MonitorView::initial().inventory.needs_refresh,
        MonitorView::initial().inventory.default_sink.len() == 0,
        MonitorView::initial().inventory.apps.dom().is_empty(),
        MonitorView::initial().inventory.recorders.dom().is_empty(),
        MonitorView::initial().inventory.sinks.len() == 0,
        MonitorView::initial().inventory.sources.len() == 0,
{
}

/// While the monitor connects, each success leads to the next step: a main loop, a context, a
/// connection, and then waiting until the connection is ready.
pub proof fn connecting_goes_on(
    before: MonitorView,
    pending: Action,
    event: Event,
    after: MonitorView,
    action: Action,
)
    requires
        exchanges(before, pending, event, after, action),
    ensures
        event == Event::MainloopCreated(true) ==> action is CreateContext,
        event == Event::ContextCreated(true) ==> action is Connect,
        event == Event::Connected(true) ==> action == (Action::Iterate { block: true }),
        event == Event::Context(ContextState::Ready) ==> action is Subscribe,
        event matches Event::Context(state) && state != ContextState::Ready && state
            != ContextState::Failed && state != ContextState::Terminated ==> action == (
        Action::Iterate { block: true }),
        pending is Subscribe ==> action == Action::Ask(Query::Server),
{
}

/// Each failure stops the monitor with the reason that goes with it, and nothing else stops it. A
/// failed iteration stops it in the middle of a round's beginning, or before the connection is
/// ready; while an answer is awaited it does not.
pub proof fn failures_stop(
    before: MonitorView,
    pending: Action,
    event: Event,
    after: MonitorView,
    action: Action,
)
    requires
        exchanges(before, pending, event, after, action),
    ensures
        event == Event::MainloopCreated(false) ==> action == Action::Stop(StopReason::NoMainloop),
        event == Event::ContextCreated(false) ==> action == Action::Stop(StopReason::NoContext),
        event == Event::Connected(false) ==> action == Action::Stop(StopReason::ConnectFailed),
        event == Event::Context(ContextState::Failed) || event == Event::Context(
            ContextState::Terminated,
        ) ==> action == Action::Stop(StopReason::ContextFailed),
        pending == (Action::Iterate { block: false }) && event != Event::Iterated(
            Iteration::Success,
        ) ==> action == Action::Stop(StopReason::MainloopEnded),
        pending == (Action::Iterate { block: true }) && event != Event::Iterated(
            Iteration::Success,
        ) ==> (action == Action::Stop(StopReason::IterateFailed) <==> !crate::course::is_connected(
            before.stage,
        )),
        action is Stop ==> {
            ||| event == Event::MainloopCreated(false)
            ||| event == Event::ContextCreated(false)
            ||| event == Event::Connected(false)
            ||| event == Event::Context(ContextState::Failed)
            ||| event == Event::Context(ContextState::Terminated)
            ||| event == Event::Iterated(Iteration::Quit)
            ||| event == Event::Iterated(Iteration::Failed)
        },
{
}

/// The monitor polls: it blocks in the main loop while the connection is not ready or a query runs,
/// and looks again after each iteration; it never blocks otherwise.
pub proof fn waiting_blocks(
    before: MonitorView,
    pending: Action,
    event: Event,
    after: MonitorView,
    action: Action,
)
    requires
        exchanges(before, pending, event, after, action),
    ensures
        event == Event::Operation(OperationState::Running) ==> action == (Action::Iterate {
            block: true,
        }),
        pending == (Action::Iterate { block: true }) && event == Event::Iterated(Iteration::Success)
            ==> if crate::course::is_connected(before.stage) {
            action is ReadOperation
        } else {
            action is ReadContext
        },
        event matches Event::Operation(state) && state != OperationState::Running ==> (action
            is Publish || action is AskSink || action is Ask) && action != Action::Ask(
            Query::Server,
        ),
        action == (Action::Iterate { block: true }) ==> {
            ||| event == Event::Connected(true)
            ||| event is Context
            ||| event == Event::Operation(OperationState::Running)
        },
{
}

/// A round goes its way: an iteration of the main loop that does not block, the timer, the
/// commands, the refresh if one is due, and a rest of 50 milliseconds; then the next round
/// begins.
pub proof fn rounds_go_their_way(
    before: MonitorView,
    pending: Action,
    event: Event,
    after: MonitorView,
    action: Action,
)
    requires
        exchanges(before, pending, event, after, action),
    ensures
        pending == (Action::Iterate { block: false }) && event == Event::Iterated(
            Iteration::Success,
        ) ==> action is ReadTimer,
        event matches Event::Elapsed(nanos) ==> if nanos > 1_000_000_000 {
            action is StartTimer
        } else {
            action is ReceiveCommand
        },
        pending is StartTimer ==> if crate::course::is_before_refresh(before.stage) {
            action is ReceiveCommand
        } else {
            action == (Action::Iterate { block: false })
        },
        pending is Perform ==> action is ReceiveCommand,
        event is NoCommand ==> if before.inventory.needs_refresh {
            action == Action::Ask(Query::Server)
        } else {
            action == (Action::Rest { millis: 50 })
        },
        pending is AskSink ==> action is ReadOperation,
        pending is Ask && pending != Action::Ask(Query::Server) ==> action is ReadOperation,
        pending == Action::Ask(Query::Server) ==> if crate::course::is_refreshing(before.stage) {
            action is ReadOperation
        } else {
            action is StartTimer
        },
        pending is Publish ==> action == (Action::Rest { millis: 50 }),
        pending is Rest ==> action == (Action::Iterate { block: false }),
{
}

/// A command is carried out at once, as it was given: a stream is muted, moved or set to a volume
/// if and only if the command says so.
pub proof fn commands_are_performed(
    before: MonitorView,
    pending: Action,
    command: PulseCommand,
    after: MonitorView,
    action: Action,
    settings: crate::command::ServerSettings,
)
    requires
        exchanges(before, pending, Event::Command(command), after, action),
    ensures
        action matches Action::Perform(request) && {
            let set = crate::command::met(settings, request);
            match command {
                PulseCommand::SetAppVolume(index, percent) => crate::command::is_volume_for(
                    set.playback[index].volume,
                    percent,
                ),
                PulseCommand::SetAppMute(index, mute) => set.playback[index].muted == mute,
                PulseCommand::SetAppSink(index, sink) => set.playback[index].device == sink,
                PulseCommand::SetRecVolume(index, percent) => crate::command::is_volume_for(
                    set.recording[index].volume,
                    percent,
                ),
                PulseCommand::SetRecMute(index, mute) => set.recording[index].muted == mute,
                PulseCommand::SetRecSource(index, source) => set.recording[index].device == source,
            }
        },
        action == Action::Perform(crate::command::requested(command)),
{
    match command {
        PulseCommand::SetAppVolume(index, percent)
        | PulseCommand::SetRecVolume(index, percent) => {
            crate::command::volume_takes_effect(settings, index, percent);
        },
        _ => {},
    }
}

/// Nothing but a command makes the monitor send a request.
pub proof fn only_commands_are_performed(
    before: MonitorView,
    pending: Action,
    event: Event,
    after: MonitorView,
    action: Action,
)
    requires
        exchanges(before, pending, event, after, action),
        action is Perform,
    ensures
        event is Command,
        pending is ReceiveCommand,
{
}

/// A sink is asked for by the name of the default sink, which is then known; and only after the
/// server was asked for it.
pub proof fn default_sink_is_asked_for(
    before: MonitorView,
    pending: Action,
    event: Event,
    after: MonitorView,
    name: String,
)
    requires
        exchanges(before, pending, event, after, Action::AskSink(name)),
    ensures
        name@ == before.inventory.default_sink,
        name@.len() > 0,
        crate::course::is_at(before.stage, Query::Server),
{
}

/// What is published is a true picture of the inventory at that moment.
pub proof fn published_snapshot_is_true(
    before: MonitorView,
    pending: Action,
    event: Event,
    after: MonitorView,
    snapshot: crate::streams::StreamSnapshot,
    index: u32,
)
    requires
        before.inventory.wf(),
        exchanges(before, pending, event, after, Action::Publish(snapshot)),
    ensures
        ({
            let shown = snapshot@;
            let known = before.inventory;
            &&& known.apps.contains_key(index) <==> exists|i: int|
                0 <= i < shown.apps.len() && (#[trigger] shown.apps[i]).index == index
            &&& known.recorders.contains_key(index) <==> exists|i: int|
                0 <= i < shown.recorders.len() && (#[trigger] shown.recorders[i]).index == index
            &&& forall|i: int|
                0 <= i < shown.apps.len() ==> #[trigger] shown.apps[i]
                    == known.apps[shown.apps[i].index]
            &&& forall|i: int|
                0 <= i < shown.recorders.len() ==> #[trigger] shown.recorders[i]
                    == known.recorders[shown.recorders[i].index]
            &&& shown.sinks == known.sinks
            &&& shown.sources == known.sources
            &&& shown.master_volume == known.master_volume
            &&& shown.master_muted == known.master_muted
        }),
{
    crate::inventory::snapshot_is_true(before.inventory, snapshot@, index);
    let shown = snapshot@;
    if before.inventory.apps.contains_key(index) {
        let i = choose|i: int|
            0 <= i < shown.apps.len() && #[trigger] shown.apps[i] == before.inventory.apps[index];
        assert(shown.apps[i].index == index);
    }
    if before.inventory.recorders.contains_key(index) {
        let i = choose|i: int|
            0 <= i < shown.recorders.len() && #[trigger] shown.recorders[i]
                == before.inventory.recorders[index];
        assert(shown.recorders[i].index == index);
    }
}

} // verus!
