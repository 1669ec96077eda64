use app_volume::command::{request_for, PulseCommand, Request};
use app_volume::monitor::{
    interests, Action, ContextState, Event, Iteration, Monitor, OperationState, Query, Stage,
    StopReason,
};
use app_volume::proplist::Proplist;
use app_volume::server::{Facility, ListResult, Report, ServerSink, ServerStream};
use app_volume::streams::StreamSnapshot;
use app_volume::volume::ChannelVolumes;

fn step(monitor: &mut Monitor, event: Event) -> Action {
    monitor.step(event).unwrap()
}

/// A monitor at the beginning of its first round.
fn connected() -> Monitor {
    let (mut monitor, action) = Monitor::launch();
    assert!(matches!(action, Action::CreateMainloop));
    assert!(matches!(step(&mut monitor, Event::MainloopCreated(true)), Action::CreateContext));
    assert!(matches!(step(&mut monitor, Event::ContextCreated(true)), Action::Connect));
    assert!(matches!(step(&mut monitor, Event::Connected(true)), Action::Iterate { block: true }));
    assert!(matches!(step(&mut monitor, Event::Iterated(Iteration::Success)), Action::ReadContext));
    assert!(matches!(step(&mut monitor, Event::Context(ContextState::Ready)), Action::Subscribe));
    assert!(matches!(step(&mut monitor, Event::Done), Action::Ask(Query::Server)));
    assert!(matches!(step(&mut monitor, Event::Done), Action::StartTimer));
    assert!(matches!(step(&mut monitor, Event::Done), Action::Iterate { block: false }));
    monitor
}

/// Goes from the beginning of a round to where commands are received.
fn to_commands(monitor: &mut Monitor) {
    assert!(matches!(step(monitor, Event::Iterated(Iteration::Success)), Action::ReadTimer));
    assert!(matches!(step(monitor, Event::Elapsed(0)), Action::ReceiveCommand));
}

/// Answers the query that was just asked, and hands on what comes after it.
fn answered(monitor: &mut Monitor) -> Action {
    assert!(matches!(step(monitor, Event::Done), Action::ReadOperation));
    step(monitor, Event::Operation(OperationState::Done))
}

fn published(action: Action) -> StreamSnapshot {
    match action {
        Action::Publish(snapshot) => snapshot,
        other => panic!("{:?}", other),
    }
}

fn stream(index: u32, name: &str) -> ServerStream {
    let mut proplist = Proplist::new();
    proplist.set_str("application.name".to_string(), name.to_string());
    ServerStream { index, name: None, proplist, volume: 65536, mute: false, device: 0 }
}

fn sink(name: &str) -> ServerSink {
    ServerSink { index: 1, name: Some(name.to_string()), description: None, volume: 32768, mute: true }
}

/// Runs a refresh without reports up to its snapshot.
fn quiet_refresh(monitor: &mut Monitor) -> StreamSnapshot {
    assert!(matches!(step(monitor, Event::NoCommand), Action::Ask(Query::Server)));
    assert!(matches!(answered(monitor), Action::Ask(Query::SinkInputs)));
    assert!(matches!(answered(monitor), Action::Ask(Query::Sinks)));
    assert!(matches!(answered(monitor), Action::Ask(Query::Sources)));
    assert!(matches!(answered(monitor), Action::Ask(Query::SourceOutputs)));
    let action = answered(monitor);
    published(action)
}

#[test]
fn a_missing_mainloop_stops_the_monitor() {
    let (mut monitor, _) = Monitor::launch();
    assert!(matches!(
        step(&mut monitor, Event::MainloopCreated(false)),
        Action::Stop(StopReason::NoMainloop)
    ));
    assert_eq!(monitor.stage(), Stage::Stopped(StopReason::NoMainloop));
}

#[test]
fn a_missing_context_stops_the_monitor() {
    let (mut monitor, _) = Monitor::launch();
    step(&mut monitor, Event::MainloopCreated(true));
    assert!(matches!(
        step(&mut monitor, Event::ContextCreated(false)),
        Action::Stop(StopReason::NoContext)
    ));
}

#[test]
fn a_refused_connection_stops_the_monitor() {
    let (mut monitor, _) = Monitor::launch();
    step(&mut monitor, Event::MainloopCreated(true));
    step(&mut monitor, Event::ContextCreated(true));
    assert!(matches!(
        step(&mut monitor, Event::Connected(false)),
        Action::Stop(StopReason::ConnectFailed)
    ));
}

#[test]
fn a_failed_iteration_stops_the_connecting_monitor() {
    for iteration in [Iteration::Quit, Iteration::Failed] {
        let (mut monitor, _) = Monitor::launch();
        step(&mut monitor, Event::MainloopCreated(true));
        step(&mut monitor, Event::ContextCreated(true));
        step(&mut monitor, Event::Connected(true));
        assert!(matches!(
            step(&mut monitor, Event::Iterated(iteration)),
            Action::Stop(StopReason::IterateFailed)
        ));
    }
}

#[test]
fn the_monitor_waits_until_the_connection_is_ready() {
    let (mut monitor, _) = Monitor::launch();
    step(&mut monitor, Event::MainloopCreated(true));
    step(&mut monitor, Event::ContextCreated(true));
    step(&mut monitor, Event::Connected(true));
    for state in [
        ContextState::Unconnected,
        ContextState::Connecting,
        ContextState::Authorizing,
        ContextState::SettingName,
    ] {
        step(&mut monitor, Event::Iterated(Iteration::Success));
        assert!(matches!(step(&mut monitor, Event::Context(state)), Action::Iterate { block: true }));
    }
    step(&mut monitor, Event::Iterated(Iteration::Success));
    assert!(matches!(step(&mut monitor, Event::Context(ContextState::Ready)), Action::Subscribe));
}

#[test]
fn a_failed_connection_stops_the_monitor() {
    for state in [ContextState::Failed, ContextState::Terminated] {
        let (mut monitor, _) = Monitor::launch();
        step(&mut monitor, Event::MainloopCreated(true));
        step(&mut monitor, Event::ContextCreated(true));
        step(&mut monitor, Event::Connected(true));
        step(&mut monitor, Event::Iterated(Iteration::Success));
        assert!(matches!(
            step(&mut monitor, Event::Context(state)),
            Action::Stop(StopReason::ContextFailed)
        ));
    }
}

#[test]
fn the_end_of_the_mainloop_stops_the_monitor() {
    for iteration in [Iteration::Quit, Iteration::Failed] {
        let mut monitor = connected();
        assert!(matches!(
            step(&mut monitor, Event::Iterated(iteration)),
            Action::Stop(StopReason::MainloopEnded)
        ));
        assert!(monitor.step(Event::Done).is_none());
        assert!(monitor.step(Event::Iterated(Iteration::Success)).is_none());
        assert_eq!(monitor.stage(), Stage::Stopped(StopReason::MainloopEnded));
    }
}

#[test]
fn the_first_round_refreshes() {
    let mut monitor = connected();
    to_commands(&mut monitor);
    let snapshot = quiet_refresh(&mut monitor);
    assert!(snapshot.apps.is_empty());
    assert_eq!(snapshot.master_volume, 100);
    assert!(matches!(step(&mut monitor, Event::Done), Action::Rest { millis: 50 }));
    assert!(matches!(step(&mut monitor, Event::Done), Action::Iterate { block: false }));
    to_commands(&mut monitor);
    assert!(matches!(step(&mut monitor, Event::NoCommand), Action::Rest { millis: 50 }));
}

#[test]
fn a_known_default_sink_is_asked_for_its_volume() {
    let mut monitor = connected();
    monitor.hear(Report::Server(Some("usb".to_string())));
    to_commands(&mut monitor);
    assert!(matches!(step(&mut monitor, Event::NoCommand), Action::Ask(Query::Server)));
    let action = answered(&mut monitor);
    assert!(matches!(&action, Action::AskSink(name) if name == "usb"), "{:?}", action);
    monitor.hear(Report::DefaultSink(ListResult::Item(sink("usb"))));
    assert!(matches!(answered(&mut monitor), Action::Ask(Query::SinkInputs)));
    answered(&mut monitor);
    answered(&mut monitor);
    answered(&mut monitor);
    let action = answered(&mut monitor);
    let snapshot = published(action);
    assert_eq!((snapshot.master_volume, snapshot.master_muted), (50, true));
}

#[test]
fn snapshots_show_what_was_reported_since_the_lists_were_asked_for() {
    let mut monitor = connected();
    monitor.hear(Report::SinkInput(ListResult::Item(stream(1, "stale"))));
    monitor.hear(Report::SourceOutput(ListResult::Item(stream(2, "stale"))));
    to_commands(&mut monitor);
    step(&mut monitor, Event::NoCommand);
    assert!(matches!(answered(&mut monitor), Action::Ask(Query::SinkInputs)));
    monitor.hear(Report::SinkInput(ListResult::Item(stream(4, "vlc"))));
    monitor.hear(Report::SinkInput(ListResult::Item(stream(5, "Firefox"))));
    monitor.hear(Report::SinkInput(ListResult::End));
    assert!(matches!(answered(&mut monitor), Action::Ask(Query::Sinks)));
    monitor.hear(Report::Sink(ListResult::Item(sink("usb"))));
    assert!(matches!(answered(&mut monitor), Action::Ask(Query::Sources)));
    assert!(matches!(answered(&mut monitor), Action::Ask(Query::SourceOutputs)));
    let action = answered(&mut monitor);
    let snapshot = published(action);
    let apps: Vec<&str> = snapshot.apps.iter().map(|app| app.app_name.as_str()).collect();
    assert_eq!(apps, vec!["Firefox", "vlc"]);
    assert!(snapshot.recorders.is_empty());
    assert_eq!(snapshot.sinks.len(), 1);
}

#[test]
fn running_queries_are_waited_for() {
    let mut monitor = connected();
    to_commands(&mut monitor);
    step(&mut monitor, Event::NoCommand);
    assert!(matches!(step(&mut monitor, Event::Done), Action::ReadOperation));
    for _ in 0..3 {
        assert!(matches!(
            step(&mut monitor, Event::Operation(OperationState::Running)),
            Action::Iterate { block: true }
        ));
        assert!(matches!(step(&mut monitor, Event::Iterated(Iteration::Success)), Action::ReadOperation));
    }
    assert!(matches!(
        step(&mut monitor, Event::Operation(OperationState::Cancelled)),
        Action::Ask(Query::SinkInputs)
    ));
}

#[test]
fn a_failed_wait_goes_on_with_the_next_query() {
    for iteration in [Iteration::Quit, Iteration::Failed] {
        let mut monitor = connected();
        to_commands(&mut monitor);
        step(&mut monitor, Event::NoCommand);
        step(&mut monitor, Event::Done);
        step(&mut monitor, Event::Operation(OperationState::Running));
        assert!(matches!(
            step(&mut monitor, Event::Iterated(iteration)),
            Action::Ask(Query::SinkInputs)
        ));
    }
}

#[test]
fn the_timer_calls_for_a_refresh_after_more_than_a_second() {
    let mut monitor = connected();
    to_commands(&mut monitor);
    quiet_refresh(&mut monitor);
    step(&mut monitor, Event::Done);
    step(&mut monitor, Event::Done);
    step(&mut monitor, Event::Iterated(Iteration::Success));
    assert!(matches!(step(&mut monitor, Event::Elapsed(1_000_000_000)), Action::ReceiveCommand));
    assert!(matches!(step(&mut monitor, Event::NoCommand), Action::Rest { millis: 50 }));
    step(&mut monitor, Event::Done);
    step(&mut monitor, Event::Iterated(Iteration::Success));
    assert!(matches!(step(&mut monitor, Event::Elapsed(1_000_000_001)), Action::StartTimer));
    assert!(matches!(step(&mut monitor, Event::Done), Action::ReceiveCommand));
    assert!(matches!(step(&mut monitor, Event::NoCommand), Action::Ask(Query::Server)));
}

#[test]
fn commands_are_carried_out_and_followed_by_a_snapshot() {
    let mut monitor = connected();
    to_commands(&mut monitor);
    quiet_refresh(&mut monitor);
    step(&mut monitor, Event::Done);
    step(&mut monitor, Event::Done);
    to_commands(&mut monitor);
    assert!(matches!(
        step(&mut monitor, Event::Command(PulseCommand::SetAppMute(3, true))),
        Action::Perform(Request::SetSinkInputMute(3, true))
    ));
    assert!(matches!(step(&mut monitor, Event::Done), Action::ReceiveCommand));
    assert!(matches!(
        step(&mut monitor, Event::Command(PulseCommand::SetRecSource(8, 2))),
        Action::Perform(Request::MoveSourceOutput(8, 2))
    ));
    assert!(matches!(step(&mut monitor, Event::Done), Action::ReceiveCommand));
    quiet_refresh(&mut monitor);
}

#[test]
fn a_change_during_a_refresh_is_not_lost() {
    let mut monitor = connected();
    to_commands(&mut monitor);
    assert!(matches!(step(&mut monitor, Event::NoCommand), Action::Ask(Query::Server)));
    monitor.hear(Report::Change(Some(Facility::SinkInput)));
    for _ in 0..4 {
        answered(&mut monitor);
    }
    let action = answered(&mut monitor);
    published(action);
    step(&mut monitor, Event::Done);
    step(&mut monitor, Event::Done);
    to_commands(&mut monitor);
    assert!(matches!(step(&mut monitor, Event::NoCommand), Action::Ask(Query::Server)));
}

#[test]
fn events_that_answer_nothing_are_passed_over() {
    let (mut monitor, _) = Monitor::launch();
    assert!(monitor.step(Event::Done).is_none());
    assert!(monitor.step(Event::NoCommand).is_none());
    assert!(monitor.step(Event::Context(ContextState::Ready)).is_none());
    assert_eq!(monitor.stage(), Stage::CreateMainloop);
    assert!(matches!(step(&mut monitor, Event::MainloopCreated(true)), Action::CreateContext));
}

#[test]
fn the_monitor_subscribes_to_streams_and_devices() {
    assert_eq!(
        interests(),
        vec![Facility::SinkInput, Facility::Sink, Facility::SourceOutput, Facility::Source]
    );
}

#[test]
fn commands_become_requests() {
    let stereo = |volume| ChannelVolumes { channels: 2, volume };
    assert_eq!(
        request_for(PulseCommand::SetAppVolume(7, 50)),
        Request::SetSinkInputVolume(7, stereo(32768))
    );
    assert_eq!(request_for(PulseCommand::SetAppMute(7, false)), Request::SetSinkInputMute(7, false));
    assert_eq!(request_for(PulseCommand::SetAppSink(7, 1)), Request::MoveSinkInput(7, 1));
    assert_eq!(
        request_for(PulseCommand::SetRecVolume(9, 100)),
        Request::SetSourceOutputVolume(9, stereo(65536))
    );
    assert_eq!(request_for(PulseCommand::SetRecMute(9, true)), Request::SetSourceOutputMute(9, true));
    assert_eq!(request_for(PulseCommand::SetRecSource(9, 4)), Request::MoveSourceOutput(9, 4));
}
