//! What holds of the monitor over any course of events.
use crate::command::PulseCommand;
use crate::inventory::InventoryView;
use crate::monitor::{
    ContextState, Event, Iteration, MonitorView, OperationState, Query, Stage, StopReason,
};
use crate::server::Report;
use crate::streams::{DeviceView, StreamView};
use vstd::prelude::*;

verus! {

/// One thing that happens to the monitor: an action is answered, or the server reports something.
pub enum Move {
    Answer(Event),
    Report(Report),
}

/// A series of states of the monitor, and what happened between them.
pub struct Course {
    pub states: Seq<MonitorView>,
    pub moves: Seq<Move>,
}

/// Whether a move takes the monitor from `before` to `after`.
pub open spec fn leads(before: MonitorView, step: Move, after: MonitorView) -> bool {
    match step {
        Move::Answer(event) => crate::monitor::next_stage(
            before.stage,
            event,
            before.inventory,
        ) matches Some(stage) && after == before.at(stage),
        Move::Report(report) => after == (MonitorView {
            inventory: before.inventory.after_report(report),
            ..before
        }),
    }
}

impl Course {
    /// Whether the monitor can take this course.
    pub open spec fn wf(self) -> bool {
        &&& self.states.len() == self.moves.len() + 1
        &&& forall|i: int|
            0 <= i < self.moves.len() ==> leads(
                #[trigger] self.states[i],
                self.moves[i],
                self.states[i + 1],
            )
    }

    /// Whether the monitor is at `stage` somewhere between two points of the course.
    pub open spec fn passes(self, stage: Stage, from: int, to: int) -> bool {
        exists|i: int| from < i < to && (#[trigger] self.states[i]).stage == stage
    }
}

/// Whether the monitor has been connected.
pub open spec fn is_connected(stage: Stage) -> bool {
    match stage {
        Stage::CreateMainloop
        | Stage::CreateContext
        | Stage::Connect
        | Stage::AwaitReady
        | Stage::CheckReady => false,
        _ => true,
    }
}

/// Whether a refresh is under way.
pub open spec fn is_refreshing(stage: Stage) -> bool {
    match stage {
        Stage::Ask(_) | Stage::CheckOperation(_) | Stage::AwaitOperation(_) => true,
        _ => false,
    }
}

/// Whether the round has not yet come to the point where it refreshes or not.
pub open spec fn is_before_refresh(stage: Stage) -> bool {
    match stage {
        Stage::Iterate
        | Stage::CheckTimer
        | Stage::RestartTimer
        | Stage::ReceiveCommand
        | Stage::Perform(_) => true,
        _ => false,
    }
}

/// How many queries of a refresh are still to be sent or waited for.
pub open spec fn queries_left(query: Query) -> nat {
    match query {
        Query::Server => 6,
        Query::DefaultSink => 5,
        Query::SinkInputs => 4,
        Query::Sinks => 3,
        Query::Sources => 2,
        Query::SourceOutputs => 1,
    }
}

/// How far a round is from its end.
pub open spec fn distance_to_rest(stage: Stage) -> nat {
    match stage {
        Stage::Rest => 0,
        Stage::Publish => 1,
        Stage::CheckOperation(query) | Stage::AwaitOperation(query) => 2 * queries_left(query),
        Stage::Ask(query) => 2 * queries_left(query) + 1,
        Stage::ReceiveCommand | Stage::Perform(_) => 14,
        Stage::RestartTimer => 15,
        Stage::CheckTimer => 16,
        Stage::Iterate => 17,
        Stage::StartTimer => 18,
        Stage::AskServer => 19,
        _ => 20,
    }
}

/// Whether an answer makes the monitor wait on: a command came in or was carried out, or the
/// server is still at a query.
pub open spec fn waits(stage: Stage, event: Event) -> bool {
    ||| event is Command
    ||| stage is Perform
    ||| event == Event::Operation(OperationState::Running)
    ||| stage is AwaitOperation && event == Event::Iterated(Iteration::Success)
}

/// Over any course that starts with nothing done, the inventory stays sound: every stream is kept
/// under its own index and no volume is above the cap.
pub proof fn course_keeps_inventory_wf(course: Course, at: int)
    requires
        course.wf(),
        0 <= at < course.states.len(),
        course.states[0] == MonitorView::initial(),
    ensures
        course.states[at].inventory.wf(),
    decreases at,
{
    if at > 0 {
        course_keeps_inventory_wf(course, at - 1);
        let before = course.states[at - 1];
        assert(leads(before, course.moves[at - 1], course.states[at]));
        if let Move::Report(report) = course.moves[at - 1] {
            crate::reports::reports_keep_inventory_wf(before.inventory, report);
        }
    }
}

/// A call for a refresh is never lost: it stands until a refresh begins.
pub proof fn call_for_refresh_stands(course: Course, from: int, to: int)
    requires
        course.wf(),
        0 <= from <= to < course.states.len(),
        course.states[from].inventory.needs_refresh,
        !course.passes(Stage::Ask(Query::Server), from, to + 1),
    ensures
        course.states[to].inventory.needs_refresh,
    decreases to - from,
{
    if from < to {
        assert(course.states[to].stage != Stage::Ask(Query::Server));
        call_for_refresh_stands(course, from, to - 1);
        let before = course.states[to - 1];
        assert(leads(before, course.moves[to - 1], course.states[to]));
        if let Move::Report(report) = course.moves[to - 1] {
            crate::reports::calls_for_refresh(before.inventory, report);
        }
    }
}

/// Whether a snapshot is bound to be published before the monitor rests.
pub open spec fn is_bound_to_publish(monitor: MonitorView) -> bool {
    ||| is_before_refresh(monitor.stage) && monitor.inventory.needs_refresh
    ||| is_refreshing(monitor.stage)
}

proof fn bound_to_publish_step(before: MonitorView, step: Move, after: MonitorView)
    requires
        is_bound_to_publish(before) || before.stage is Stopped,
        leads(before, step, after),
    ensures
        is_bound_to_publish(after) || after.stage == Stage::Publish || after.stage is Stopped,
{
    if let Move::Report(report) = step {
        crate::reports::calls_for_refresh(before.inventory, report);
    }
}

proof fn bound_to_publish_until(course: Course, from: int, to: int)
    requires
        course.wf(),
        0 <= from <= to < course.states.len(),
        is_bound_to_publish(course.states[from]),
        !course.passes(Stage::Publish, from, to + 1),
    ensures
        is_bound_to_publish(course.states[to]) || course.states[to].stage is Stopped,
    decreases to - from,
{
    if from < to {
        assert(course.states[to].stage != Stage::Publish);
        bound_to_publish_until(course, from, to - 1);
        assert(leads(course.states[to - 1], course.moves[to - 1], course.states[to]));
        bound_to_publish_step(course.states[to - 1], course.moves[to - 1], course.states[to]);
    }
}

/// A round that has a call for a refresh, or has begun one, publishes a snapshot before the
/// monitor rests again.
pub proof fn refresh_is_published(course: Course, from: int, to: int)
    requires
        course.wf(),
        0 <= from < to < course.states.len(),
        is_bound_to_publish(course.states[from]),
        course.states[to].stage == Stage::Rest,
    ensures
        course.passes(Stage::Publish, from, to),
{
    if !course.passes(Stage::Publish, from, to) {
        bound_to_publish_until(course, from, to);
    }
}

/// Every command is followed by a snapshot before the monitor rests again.
pub proof fn command_is_answered(course: Course, from: int, to: int, command: PulseCommand)
    requires
        course.wf(),
        0 <= from < to < course.states.len(),
        course.moves[from] == Move::Answer(Event::Command(command)),
        course.states[to].stage == Stage::Rest,
    ensures
        course.states[from + 1].stage == Stage::Perform(crate::command::requested(command)),
        course.passes(Stage::Publish, from, to),
{
    assert(leads(course.states[from], course.moves[from], course.states[from + 1]));
    if to > from + 1 {
        refresh_is_published(course, from + 1, to);
    }
}

/// Once the timer has run out, a snapshot follows before the monitor rests again.
pub proof fn timer_is_answered(course: Course, from: int, to: int, nanos: u128)
    requires
        course.wf(),
        0 <= from < to < course.states.len(),
        nanos > crate::monitor::REFRESH_NANOS,
        course.moves[from] == Move::Answer(Event::Elapsed(nanos)),
        course.states[to].stage == Stage::Rest,
    ensures
        course.passes(Stage::Publish, from, to),
{
    assert(leads(course.states[from], course.moves[from], course.states[from + 1]));
    if to > from + 1 {
        refresh_is_published(course, from + 1, to);
    }
}

/// Whenever a call for a refresh stands, a snapshot follows by the end of the next round that
/// begins after it.
pub proof fn change_is_published(course: Course, from: int, next: int, to: int)
    requires
        course.wf(),
        0 <= from <= next < to < course.states.len(),
        course.states[from].inventory.needs_refresh,
        course.states[next].stage == Stage::Iterate,
        course.states[to].stage == Stage::Rest,
    ensures
        course.passes(Stage::Publish, from, to),
{
    if course.passes(Stage::Ask(Query::Server), from, next + 1) {
        let begun = choose|i: int|
            from < i < next + 1 && (#[trigger] course.states[i]).stage == Stage::Ask(Query::Server);
        refresh_is_published(course, begun, to);
    } else {
        call_for_refresh_stands(course, from, next);
        refresh_is_published(course, next, to);
    }
}

/// A list holds nothing old when it is asked for.
pub proof fn lists_are_asked_for_empty(before: MonitorView, event: Event, after: MonitorView)
    requires
        leads(before, Move::Answer(event), after),
    ensures
        after.stage == Stage::Ask(Query::SinkInputs) ==> after.inventory.apps == Map::<
            u32,
            StreamView,
        >::empty(),
        after.stage == Stage::Ask(Query::Sinks) ==> after.inventory.sinks == Seq::<
            DeviceView,
        >::empty(),
        after.stage == Stage::Ask(Query::Sources) ==> after.inventory.sources == Seq::<
            DeviceView,
        >::empty(),
        after.stage == Stage::Ask(Query::SourceOutputs) ==> after.inventory.recorders == Map::<
            u32,
            StreamView,
        >::empty(),
{
}

/// The queries of a refresh come in their order, none twice; only the one for the default sink is
/// left out, while its name is not known. The last one is followed by the snapshot.
pub proof fn queries_come_in_order(query: Query, event: Event, before: MonitorView)
    requires
        before.stage == Stage::CheckOperation(query) || before.stage == Stage::AwaitOperation(
            query,
        ),
    ensures
        match crate::monitor::next_stage(before.stage, event, before.inventory) {
            Some(Stage::Ask(next)) => {
                ||| queries_left(next) + 1 == queries_left(query)
                ||| query == Query::Server && next == Query::SinkInputs
                    && before.inventory.default_sink.len() == 0
            },
            Some(Stage::Publish) => query == Query::SourceOutputs,
            Some(stage) => stage == Stage::CheckOperation(query) || stage == Stage::AwaitOperation(
                query,
            ),
            None => true,
        },
{
}

/// A refresh begins only where one is called for and no command is waiting any more, and a snapshot
/// is published only at the end of a refresh.
pub proof fn commands_come_first(stage: Stage, event: Event, inventory: InventoryView)
    ensures
        crate::monitor::next_stage(stage, event, inventory) == Some(Stage::Ask(Query::Server)) <==> (
        stage == Stage::ReceiveCommand && event is NoCommand && inventory.needs_refresh),
        crate::monitor::next_stage(stage, event, inventory) == Some(Stage::Publish) ==> (stage
            == Stage::CheckOperation(Query::SourceOutputs) || stage == Stage::AwaitOperation(
            Query::SourceOutputs,
        )),
{
}

/// Every round comes to its end: an answer either makes the monitor wait on, or stop, or brings it
/// closer to its rest.
pub proof fn rounds_come_to_rest(stage: Stage, event: Event, inventory: InventoryView)
    requires
        is_connected(stage),
        stage != Stage::Rest,
    ensures
        match crate::monitor::next_stage(stage, event, inventory) {
            Some(Stage::Stopped(_)) => true,
            Some(next) => {
                &&& distance_to_rest(next) <= distance_to_rest(stage)
                &&& !waits(stage, event) ==> distance_to_rest(next) < distance_to_rest(stage)
            },
            None => true,
        },
{
}

/// Once connected, nothing but the end of the main loop stops the monitor: neither a query that
/// fails nor a user interface that is gone.
pub proof fn only_the_mainloop_stops(stage: Stage, event: Event, inventory: InventoryView)
    requires
        is_connected(stage),
        crate::monitor::next_stage(stage, event, inventory) matches Some(next) && next is Stopped,
    ensures
        stage == Stage::Iterate,
        event matches Event::Iterated(iteration) && iteration != Iteration::Success,
        crate::monitor::next_stage(stage, event, inventory) == Some(
            Stage::Stopped(StopReason::MainloopEnded),
        ),
{
}

/// The monitor only gets to work once the connection is ready.
pub proof fn connection_is_ready_first(stage: Stage, event: Event, inventory: InventoryView)
    requires
        !is_connected(stage),
        crate::monitor::next_stage(stage, event, inventory) matches Some(next) && is_connected(next)
            && !(next is Stopped),
    ensures
        stage == Stage::CheckReady,
        event == Event::Context(ContextState::Ready),
{
}

/// A monitor that has stopped does nothing any more.
pub proof fn stopping_is_final(reason: StopReason, event: Event, inventory: InventoryView)
    ensures
        crate::monitor::next_stage(Stage::Stopped(reason), event, inventory) is None,
{
}

/// What the server reports from one point of a course to another.
pub open spec fn heard(course: Course, from: int, to: int) -> Seq<Report>
    decreases to - from,
{
    if from >= to {
        Seq::empty()
    } else {
        match course.moves[to - 1] {
            Move::Report(report) => heard(course, from, to - 1).push(report),
            Move::Answer(_) => heard(course, from, to - 1),
        }
    }
}

/// Whether an answer between two points of a course makes the monitor ask a query.
pub open spec fn is_asked_between(course: Course, from: int, to: int, query: Query) -> bool {
    exists|i: int|
        from <= i < to && course.moves[i] is Answer && (#[trigger] course.states[i + 1]).stage
            == Stage::Ask(query)
}

/// Until it is asked for again, each list changes by the server's reports alone. The master volume
/// and the name of the default sink never change otherwise.
pub proof fn lists_follow_reports(course: Course, from: int, to: int)
    requires
        course.wf(),
        0 <= from <= to < course.states.len(),
    ensures
        ({
            let start = course.states[from].inventory;
            let end = course.states[to].inventory;
            let reported = crate::reports::after_reports(start, heard(course, from, to));
            &&& !is_asked_between(course, from, to, Query::SinkInputs) ==> end.apps
                == reported.apps
            &&& !is_asked_between(course, from, to, Query::SourceOutputs) ==> end.recorders
                == reported.recorders
            &&& !is_asked_between(course, from, to, Query::Sinks) ==> end.sinks == reported.sinks
            &&& !is_asked_between(course, from, to, Query::Sources) ==> end.sources
                == reported.sources
            &&& end.master_volume == reported.master_volume
            &&& end.master_muted == reported.master_muted
            &&& end.default_sink == reported.default_sink
        }),
    decreases to - from,
{
    if from < to {
        lists_follow_reports(course, from, to - 1);
        let start = course.states[from].inventory;
        let before = course.states[to - 1];
        let earlier = heard(course, from, to - 1);
        assert(leads(before, course.moves[to - 1], course.states[to]));
        assert(course.states[(to - 1) + 1] == course.states[to]);
        match course.moves[to - 1] {
            Move::Report(report) => {
                assert(heard(course, from, to).drop_last() =~= earlier);
                crate::reports::reports_work_alike(
                    before.inventory,
                    crate::reports::after_reports(start, earlier),
                    report,
                );
            },
            Move::Answer(_) => {},
        }
    }
}

/// A snapshot shows the present: a playback stream is in the inventory that is published if and
/// only if the server reported it after the list was asked for, and it is not one that is kept
/// out; and it is listed as in the latest such report.
pub proof fn published_apps_are_current(course: Course, from: int, to: int, index: u32)
    requires
        course.wf(),
        0 < from <= to < course.states.len(),
        course.moves[from - 1] is Answer,
        course.states[from].stage == Stage::Ask(Query::SinkInputs),
        !is_asked_between(course, from, to, Query::SinkInputs),
        course.states[to].stage == Stage::Publish,
    ensures
        ({
            let apps = course.states[to].inventory.apps;
            let reports = heard(course, from, to);
            &&& apps.contains_key(index) <==> exists|i: int|
                0 <= i < reports.len() && crate::reports::reports_app(#[trigger] reports[i], index)
            &&& forall|i: int| #[trigger]
                crate::reports::is_latest(reports, i, crate::reports::about_app(index))
                    ==> apps[index] == crate::reports::reported_stream(reports[i])
        }),
{
    assert(leads(course.states[from - 1], course.moves[from - 1], course.states[from]));
    lists_follow_reports(course, from, to);
    crate::reports::apps_are_the_visible_reports(
        course.states[from].inventory,
        heard(course, from, to),
        index,
    );
}

/// A snapshot shows the present: a recording stream is in the inventory that is published if and
/// only if the server reported it after the list was asked for, and it is not one that is kept
/// out; and it is listed as in the latest such report.
pub proof fn published_recorders_are_current(course: Course, from: int, to: int, index: u32)
    requires
        course.wf(),
        0 < from <= to < course.states.len(),
        course.moves[from - 1] is Answer,
        course.states[from].stage == Stage::Ask(Query::SourceOutputs),
        !is_asked_between(course, from, to, Query::SourceOutputs),
        course.states[to].stage == Stage::Publish,
    ensures
        ({
            let recorders = course.states[to].inventory.recorders;
            let reports = heard(course, from, to);
            &&& recorders.contains_key(index) <==> exists|i: int|
                0 <= i < reports.len() && crate::reports::reports_recorder(
                    #[trigger] reports[i],
                    index,
                )
            &&& forall|i: int| #[trigger]
                crate::reports::is_latest(reports, i, crate::reports::about_recorder(index))
                    ==> recorders[index] == crate::reports::reported_stream(reports[i])
        }),
{
    assert(leads(course.states[from - 1], course.moves[from - 1], course.states[from]));
    lists_follow_reports(course, from, to);
    crate::reports::recorders_are_the_visible_reports(
        course.states[from].inventory,
        heard(course, from, to),
        index,
    );
}

/// A snapshot shows the present: exactly those output devices are listed that the server reported
/// after the list was asked for.
pub proof fn published_sinks_are_current(course: Course, from: int, to: int, device: DeviceView)
    requires
        course.wf(),
        0 < from <= to < course.states.len(),
        course.moves[from - 1] is Answer,
        course.states[from].stage == Stage::Ask(Query::Sinks),
        !is_asked_between(course, from, to, Query::Sinks),
        course.states[to].stage == Stage::Publish,
    ensures
        ({
            let reports = heard(course, from, to);
            course.states[to].inventory.sinks.contains(device) <==> exists|i: int|
                0 <= i < reports.len() && crate::reports::reports_sink(
                    #[trigger] reports[i],
                    device,
                )
        }),
{
    assert(leads(course.states[from - 1], course.moves[from - 1], course.states[from]));
    lists_follow_reports(course, from, to);
    crate::reports::sinks_are_the_reports(
        course.states[from].inventory,
        heard(course, from, to),
        device,
    );
}

/// A snapshot shows the present: exactly those input devices are listed that the server reported
/// after the list was asked for, and that do not repeat what a sink plays.
pub proof fn published_sources_are_current(course: Course, from: int, to: int, device: DeviceView)
    requires
        course.wf(),
        0 < from <= to < course.states.len(),
        course.moves[from - 1] is Answer,
        course.states[from].stage == Stage::Ask(Query::Sources),
        !is_asked_between(course, from, to, Query::Sources),
        course.states[to].stage == Stage::Publish,
    ensures
        ({
            let reports = heard(course, from, to);
            course.states[to].inventory.sources.contains(device) <==> exists|i: int|
                0 <= i < reports.len() && crate::reports::reports_source(
                    #[trigger] reports[i],
                    device,
                )
        }),
{
    assert(leads(course.states[from - 1], course.moves[from - 1], course.states[from]));
    lists_follow_reports(course, from, to);
    crate::reports::sources_are_the_real_reports(
        course.states[from].inventory,
        heard(course, from, to),
        device,
    );
}

/// Whether an answer tells that a query is no longer worth waiting for: its operation is over, or
/// the main loop failed.
pub open spec fn ends_wait(step: Move) -> bool {
    match step {
        Move::Answer(Event::Operation(state)) => state != OperationState::Running,
        Move::Answer(Event::Iterated(iteration)) => iteration != Iteration::Success,
        _ => false,
    }
}

/// Whether the monitor is at a query: sending it, or waiting for its answer.
pub open spec fn is_at(stage: Stage, query: Query) -> bool {
    stage == Stage::Ask(query) || stage == Stage::CheckOperation(query) || stage
        == Stage::AwaitOperation(query)
}

/// The monitor stays with a query while its operation runs, and leaves it as soon as the operation
/// is over or an iteration of the main loop has failed.
pub proof fn running_queries_are_waited_for(before: MonitorView, event: Event, query: Query)
    ensures
        ({
            let next = crate::monitor::next_stage(before.stage, event, before.inventory);
            &&& before.stage == Stage::Ask(query) && event is Done ==> next == Some(
                Stage::CheckOperation(query),
            )
            &&& before.stage == Stage::CheckOperation(query) && event == Event::Operation(
                OperationState::Running,
            ) ==> next == Some(Stage::AwaitOperation(query))
            &&& before.stage == Stage::AwaitOperation(query) && event == Event::Iterated(
                Iteration::Success,
            ) ==> next == Some(Stage::CheckOperation(query))
            &&& is_at(before.stage, query) && next is Some ==> (is_at(next->0, query) <==> !ends_wait(
                Move::Answer(event),
            ))
        }),
{
}

/// Every query of a refresh is waited for: before the monitor sends another query or publishes its
/// snapshot, the operation was read as no longer running, or an iteration of the main loop failed.
pub proof fn answers_are_awaited(course: Course, from: int, to: int, query: Query)
    requires
        course.wf(),
        0 <= from < to < course.states.len(),
        is_at(course.states[from].stage, query),
        !is_at(course.states[to].stage, query),
    ensures
        exists|i: int| from <= i < to && ends_wait(#[trigger] course.moves[i]),
    decreases to - from,
{
    assert(leads(course.states[from], course.moves[from], course.states[from + 1]));
    if !ends_wait(course.moves[from]) {
        if let Move::Answer(event) = course.moves[from] {
            running_queries_are_waited_for(course.states[from], event, query);
        }
        assert(is_at(course.states[from + 1].stage, query));
        answers_are_awaited(course, from + 1, to, query);
    }
}

proof fn query_is_still_to_come(course: Course, from: int, to: int, query: Query)
    requires
        course.wf(),
        0 <= from <= to < course.states.len(),
        course.states[from].stage == Stage::Ask(Query::Server),
        queries_left(query) <= 4,
        !course.passes(Stage::Ask(query), from, to + 1),
        !course.passes(Stage::Publish, from, to),
    ensures
        exists|current: Query| #[trigger]
            is_at(course.states[to].stage, current) && queries_left(current) > queries_left(query),
    decreases to - from,
{
    if from == to {
        assert(is_at(course.states[to].stage, Query::Server));
    } else {
        query_is_still_to_come(course, from, to - 1, query);
        let before = course.states[to - 1];
        let after = course.states[to];
        let current = choose|current: Query| #[trigger]
            is_at(before.stage, current) && queries_left(current) > queries_left(query);
        assert(leads(before, course.moves[to - 1], after));
        assert(after.stage != Stage::Ask(query));
        match course.moves[to - 1] {
            Move::Report(_) => {
                assert(is_at(after.stage, current));
            },
            Move::Answer(event) => {
                if before.stage == Stage::Ask(current) {
                    assert(is_at(after.stage, current));
                } else {
                    queries_come_in_order(current, event, before);
                    match after.stage {
                        Stage::Ask(next) => {
                            assert(is_at(after.stage, next));
                        },
                        _ => {
                            assert(is_at(after.stage, current));
                        },
                    }
                }
            },
        }
    }
}

/// Every refresh asks for everything: between its beginning and its snapshot the playback streams,
/// the output devices, the input devices and the recording streams are each asked for.
pub proof fn refresh_asks_for_everything(course: Course, from: int, to: int)
    requires
        course.wf(),
        0 <= from < to < course.states.len(),
        course.states[from].stage == Stage::Ask(Query::Server),
        course.states[to].stage == Stage::Publish,
        !course.passes(Stage::Publish, from, to),
    ensures
        course.passes(Stage::Ask(Query::SinkInputs), from, to),
        course.passes(Stage::Ask(Query::Sinks), from, to),
        course.passes(Stage::Ask(Query::Sources), from, to),
        course.passes(Stage::Ask(Query::SourceOutputs), from, to),
{
    refresh_asks_for(course, from, to, Query::SinkInputs);
    refresh_asks_for(course, from, to, Query::Sinks);
    refresh_asks_for(course, from, to, Query::Sources);
    refresh_asks_for(course, from, to, Query::SourceOutputs);
}

proof fn refresh_asks_for(course: Course, from: int, to: int, query: Query)
    requires
        course.wf(),
        0 <= from < to < course.states.len(),
        course.states[from].stage == Stage::Ask(Query::Server),
        course.states[to].stage == Stage::Publish,
        !course.passes(Stage::Publish, from, to),
        queries_left(query) <= 4,
    ensures
        course.passes(Stage::Ask(query), from, to),
{
    if !course.passes(Stage::Ask(query), from, to) {
        assert forall|i: int| from < i < to + 1 implies (#[trigger] course.states[i]).stage
            != Stage::Ask(query) by {}
        assert(!course.passes(Stage::Ask(query), from, to + 1));
        query_is_still_to_come(course, from, to, query);
    }
}

/// The default sink is asked for exactly where its name is known once the server has answered.
pub proof fn default_sink_is_asked_for_by_name(before: MonitorView, event: Event)
    requires
        is_at(before.stage, Query::Server),
        ends_wait(Move::Answer(event)),
        crate::monitor::next_stage(before.stage, event, before.inventory) is Some,
    ensures
        crate::monitor::next_stage(before.stage, event, before.inventory) == Some(
            Stage::Ask(Query::DefaultSink),
        ) <==> before.inventory.default_sink.len() > 0,
{
}

/// A call for a refresh comes from a command, from a timer that has run for more than a second, or
/// from a report; it is met by the beginning of a refresh and by nothing else.
pub proof fn calls_come_and_go(before: MonitorView, event: Event, after: MonitorView)
    requires
        leads(before, Move::Answer(event), after),
    ensures
        event is Command ==> after.inventory.needs_refresh,
        event matches Event::Elapsed(nanos) && nanos > 1_000_000_000
            ==> after.inventory.needs_refresh,
        event is NoCommand ==> !after.inventory.needs_refresh,
        !(event is Command) && !(event is NoCommand) && !(event matches Event::Elapsed(nanos)
            && nanos > 1_000_000_000) ==> after.inventory.needs_refresh
            == before.inventory.needs_refresh,
{
}

/// An answer empties a list only where that list is then asked for; it adds nothing to any.
pub proof fn answers_only_empty_lists(before: MonitorView, event: Event, after: MonitorView)
    requires
        leads(before, Move::Answer(event), after),
    ensures
        after.inventory.apps == before.inventory.apps || (after.stage == Stage::Ask(
            Query::SinkInputs,
        ) && after.inventory.apps == Map::<u32, StreamView>::empty()),
        after.inventory.recorders == before.inventory.recorders || (after.stage == Stage::Ask(
            Query::SourceOutputs,
        ) && after.inventory.recorders == Map::<u32, StreamView>::empty()),
        after.inventory.sinks == before.inventory.sinks || (after.stage == Stage::Ask(Query::Sinks)
            && after.inventory.sinks == Seq::<DeviceView>::empty()),
        after.inventory.sources == before.inventory.sources || (after.stage == Stage::Ask(
            Query::Sources,
        ) && after.inventory.sources == Seq::<DeviceView>::empty()),
        after.inventory.master_volume == before.inventory.master_volume,
        after.inventory.master_muted == before.inventory.master_muted,
        after.inventory.default_sink == before.inventory.default_sink,
{
}

/// Whether a monitor has neither published a snapshot nor come to rest, and is bound to publish one
/// first unless it stops.
pub open spec fn is_before_first_snapshot(monitor: MonitorView) -> bool {
    ||| monitor.inventory.needs_refresh && monitor.stage != Stage::Publish && monitor.stage
        != Stage::Rest
    ||| is_refreshing(monitor.stage)
    ||| monitor.stage is Stopped
}

proof fn first_snapshot_is_still_to_come(course: Course, to: int)
    requires
        course.wf(),
        0 <= to < course.states.len(),
        course.states[0] == MonitorView::initial(),
        !course.passes(Stage::Publish, 0, to + 1),
    ensures
        is_before_first_snapshot(course.states[to]),
    decreases to,
{
    if to > 0 {
        first_snapshot_is_still_to_come(course, to - 1);
        let before = course.states[to - 1];
        assert(course.states[to].stage != Stage::Publish);
        assert(leads(before, course.moves[to - 1], course.states[to]));
        if let Move::Report(report) = course.moves[to - 1] {
            crate::reports::calls_for_refresh(before.inventory, report);
        }
    }
}

/// A monitor never rests before it has published its first snapshot.
pub proof fn first_round_publishes(course: Course, to: int)
    requires
        course.wf(),
        0 <= to < course.states.len(),
        course.states[0] == MonitorView::initial(),
        course.states[to].stage == Stage::Rest,
    ensures
        course.passes(Stage::Publish, 0, to),
{
    if !course.passes(Stage::Publish, 0, to) {
        assert forall|i: int| 0 < i < to + 1 implies (#[trigger] course.states[i]).stage
            != Stage::Publish by {}
        assert(!course.passes(Stage::Publish, 0, to + 1));
        first_snapshot_is_still_to_come(course, to);
    }
}

} // verus!
