use app_volume::command::PulseCommand;
use app_volume::handles::{
    send_command, start, subscription_wait, subscription_yield, take_receiver, Handles, Wait,
    IDLE_SECONDS,
};
use app_volume::inventory::Inventory;
use app_volume::streams::StreamSnapshot;
use std::sync::mpsc::{channel, Sender};
use tokio::sync::mpsc::{unbounded_channel, UnboundedReceiver};

type PulseHandles = Handles<Sender<PulseCommand>, UnboundedReceiver<StreamSnapshot>>;

#[test]
fn commands_before_the_start_go_nowhere() {
    let handles: PulseHandles = Handles::new();
    assert!(send_command(&handles, PulseCommand::SetAppMute(1, true)).is_none());
}

#[test]
fn commands_reach_the_monitor() {
    let mut handles: PulseHandles = Handles::new();
    let (commands, received) = channel();
    let (_, snapshots) = unbounded_channel();
    assert!(start(&mut handles, commands, snapshots));
    for index in 0..3 {
        let (sender, command) = send_command(&handles, PulseCommand::SetAppSink(index, 9)).unwrap();
        sender.send(command).unwrap();
    }
    for index in 0..3 {
        match received.try_recv() {
            Ok(PulseCommand::SetAppSink(stream, sink)) => assert_eq!((stream, sink), (index, 9)),
            other => panic!("{:?}", other),
        }
    }
    assert!(received.try_recv().is_err());
}

#[test]
fn starting_again_changes_nothing() {
    let mut handles = Handles::<u8, u16>::new();
    assert!(start(&mut handles, 1, 10));
    assert!(!start(&mut handles, 2, 20));
    assert_eq!(handles.commands, Some(1));
    assert_eq!(handles.snapshots, Some(10));
}

#[test]
fn the_receiver_is_given_out_once() {
    let mut handles = Handles::<u8, u16>::new();
    assert_eq!(take_receiver(&mut handles), None);
    assert!(start(&mut handles, 1, 10));
    assert_eq!(take_receiver(&mut handles), Some(10));
    assert_eq!(take_receiver(&mut handles), None);
    assert!(!start(&mut handles, 2, 20));
    assert_eq!(take_receiver(&mut handles), None);
    assert_eq!(handles.commands, Some(1));
}

#[test]
fn snapshots_reach_the_subscription() {
    let mut handles: PulseHandles = Handles::new();
    let (commands, _received) = channel();
    let (sender, snapshots) = unbounded_channel();
    start(&mut handles, commands, snapshots);
    sender.send(Inventory::new().snapshot()).unwrap();
    drop(sender);
    let mut receiver = match subscription_wait(take_receiver(&mut handles)) {
        Wait::Receive(receiver) => receiver,
        Wait::Idle { .. } => panic!("no receiver"),
    };
    let received = receiver.try_recv().ok();
    let (snapshot, receiver) = subscription_yield(receiver, received).unwrap();
    assert_eq!(snapshot.master_volume, 100);
    let mut receiver = match subscription_wait(receiver) {
        Wait::Receive(receiver) => receiver,
        Wait::Idle { .. } => panic!("no receiver"),
    };
    let received = receiver.try_recv().ok();
    assert!(subscription_yield(receiver, received).is_none());
}

#[test]
fn a_subscription_without_receiver_lies_idle_for_a_day() {
    assert_eq!(IDLE_SECONDS, 24 * 60 * 60);
    assert!(matches!(subscription_wait::<u8>(None), Wait::Idle { seconds: 86400 }));
}
