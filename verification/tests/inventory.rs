use app_volume::inventory::Inventory;
use app_volume::listing::{alphabetical, sorted_by_keys};
use app_volume::proplist::Proplist;
use app_volume::server::{Facility, ListResult, Report, ServerSink, ServerSource, ServerStream};
use app_volume::streams::{AppStream, StreamSnapshot};

fn stream(index: u32, entries: &[(&str, &str)]) -> ServerStream {
    let mut proplist = Proplist::new();
    for (key, value) in entries {
        proplist.set_str(key.to_string(), value.to_string());
    }
    ServerStream { index, name: None, proplist, volume: 65536, mute: false, device: 9 }
}

fn app(index: u32, name: &str) -> AppStream {
    AppStream {
        index,
        app_name: name.to_string(),
        icon_name: None,
        volume_percent: 100,
        muted: false,
        sink_index: 0,
    }
}

fn sink(index: u32, name: &str) -> ServerSink {
    ServerSink {
        index,
        name: Some(name.to_string()),
        description: None,
        volume: 32768,
        mute: true,
    }
}

fn app_names(snapshot: &StreamSnapshot) -> Vec<String> {
    snapshot.apps.iter().map(|app| app.app_name.clone()).collect()
}

#[test]
fn a_new_inventory_is_empty_and_due() {
    let inventory = Inventory::new();
    assert!(inventory.needs_refresh());
    assert_eq!(inventory.default_sink(), "");
    let snapshot = inventory.snapshot();
    assert!(snapshot.apps.is_empty());
    assert!(snapshot.recorders.is_empty());
    assert!(snapshot.sinks.is_empty());
    assert!(snapshot.sources.is_empty());
    assert_eq!(snapshot.master_volume, 100);
    assert!(!snapshot.master_muted);
}

#[test]
fn apps_are_listed_alphabetically_whatever_their_case() {
    let mut inventory = Inventory::new();
    for (index, name) in [(1, "vlc"), (2, "Firefox"), (3, "mpv"), (4, "Zoom"), (5, "éclair"), (6, "Audacity")] {
        inventory.on_sink_input(ListResult::Item(stream(index, &[("application.name", name)])));
    }
    let snapshot = inventory.snapshot();
    assert_eq!(app_names(&snapshot), vec!["Audacity", "Firefox", "mpv", "vlc", "Zoom", "éclair"]);
    let indices: Vec<u32> = snapshot.apps.iter().map(|app| app.index).collect();
    assert_eq!(indices, vec![6, 2, 3, 1, 4, 5]);
}

#[test]
fn each_stream_is_listed_once() {
    let mut inventory = Inventory::new();
    for index in 0..20 {
        inventory.on_sink_input(ListResult::Item(stream(index, &[("application.name", "Same")])));
    }
    let mut indices: Vec<u32> = inventory.snapshot().apps.iter().map(|app| app.index).collect();
    indices.sort();
    assert_eq!(indices, (0..20).collect::<Vec<u32>>());
}

#[test]
fn the_latest_report_of_a_stream_counts() {
    let mut inventory = Inventory::new();
    inventory.on_sink_input(ListResult::Item(stream(1, &[("application.name", "Old")])));
    inventory.on_sink_input(ListResult::Item(stream(1, &[("application.name", "New")])));
    assert_eq!(app_names(&inventory.snapshot()), vec!["New"]);
}

#[test]
fn hidden_streams_are_not_noted() {
    let mut inventory = Inventory::new();
    inventory.on_sink_input(ListResult::Item(stream(1, &[("media.role", "event")])));
    inventory.on_source_output(ListResult::Item(stream(2, &[("application.process.binary", "parec")])));
    inventory.on_source_output(ListResult::Item(stream(3, &[("application.name", "OBS")])));
    let snapshot = inventory.snapshot();
    assert!(snapshot.apps.is_empty());
    assert_eq!(snapshot.recorders.len(), 1);
    assert_eq!(snapshot.recorders[0].app_name, "OBS");
    assert_eq!(snapshot.recorders[0].source_index, 9);
}

#[test]
fn the_end_of_a_list_and_errors_change_nothing() {
    let mut inventory = Inventory::new();
    inventory.on_sink_input(ListResult::End);
    inventory.on_sink_input(ListResult::Error);
    inventory.on_source_output(ListResult::End);
    inventory.on_sink(ListResult::Error);
    inventory.on_source(ListResult::End);
    inventory.on_default_sink(ListResult::Error);
    let snapshot = inventory.snapshot();
    assert!(snapshot.apps.is_empty() && snapshot.recorders.is_empty());
    assert!(snapshot.sinks.is_empty() && snapshot.sources.is_empty());
    assert_eq!((snapshot.master_volume, snapshot.master_muted), (100, false));
}

#[test]
fn devices_keep_their_order() {
    let mut inventory = Inventory::new();
    inventory.on_sink(ListResult::Item(sink(7, "usb")));
    inventory.on_sink(ListResult::Item(sink(3, "hdmi")));
    let source = |index, monitor_of_sink| ServerSource {
        index,
        name: Some("in".to_string()),
        description: Some("Input".to_string()),
        monitor_of_sink,
    };
    inventory.on_source(ListResult::Item(source(1, Some(7))));
    inventory.on_source(ListResult::Item(source(2, None)));
    let snapshot = inventory.snapshot();
    let sinks: Vec<(u32, &str)> = snapshot.sinks.iter().map(|sink| (sink.index, sink.name.as_str())).collect();
    assert_eq!(sinks, vec![(7, "usb"), (3, "hdmi")]);
    assert_eq!(snapshot.sources.len(), 1);
    assert_eq!(snapshot.sources[0].index, 2);
    assert_eq!(snapshot.sources[0].description, "Input");
}

#[test]
fn the_default_sink_sets_the_master_volume() {
    let mut inventory = Inventory::new();
    inventory.on_default_sink(ListResult::Item(sink(0, "usb")));
    let snapshot = inventory.snapshot();
    assert_eq!((snapshot.master_volume, snapshot.master_muted), (50, true));
}

#[test]
fn the_default_sink_keeps_its_name_until_another_is_given() {
    let mut inventory = Inventory::new();
    inventory.on_server_info(None);
    assert_eq!(inventory.default_sink(), "");
    inventory.on_server_info(Some("usb".to_string()));
    inventory.on_server_info(None);
    assert_eq!(inventory.default_sink(), "usb");
}

#[test]
fn changes_of_streams_and_devices_call_for_a_refresh() {
    for facility in [Facility::SinkInput, Facility::Sink, Facility::SourceOutput, Facility::Source] {
        let mut inventory = Inventory::new();
        inventory.set_needs_refresh(false);
        inventory.on_change(Some(facility));
        assert!(inventory.needs_refresh());
    }
}

#[test]
fn other_changes_do_not_call_for_a_refresh() {
    for facility in [
        None,
        Some(Facility::Module),
        Some(Facility::Client),
        Some(Facility::SampleCache),
        Some(Facility::Server),
        Some(Facility::Card),
    ] {
        let mut inventory = Inventory::new();
        inventory.on_change(facility);
        assert!(inventory.needs_refresh());
        inventory.set_needs_refresh(false);
        inventory.on_change(facility);
        assert!(!inventory.needs_refresh());
    }
}

#[test]
fn lists_are_cleared_one_by_one() {
    let mut inventory = Inventory::new();
    inventory.hear(Report::SinkInput(ListResult::Item(stream(1, &[]))));
    inventory.hear(Report::SourceOutput(ListResult::Item(stream(2, &[]))));
    inventory.hear(Report::Sink(ListResult::Item(sink(3, "usb"))));
    inventory.clear_apps();
    let snapshot = inventory.snapshot();
    assert!(snapshot.apps.is_empty());
    assert_eq!(snapshot.recorders.len(), 1);
    assert_eq!(snapshot.recorders[0].app_name, "Stream 2");
    inventory.clear_recorders();
    inventory.clear_sources();
    assert_eq!(inventory.snapshot().sinks.len(), 1);
    inventory.clear_sinks();
    let snapshot = inventory.snapshot();
    assert!(snapshot.recorders.is_empty() && snapshot.sinks.is_empty());
}

#[test]
fn streams_of_the_same_name_keep_their_order() {
    let sorted = alphabetical(vec![app(1, "MPV"), app(2, "alsa"), app(3, "mpv"), app(4, "Mpv")]);
    let indices: Vec<u32> = sorted.iter().map(|app| app.index).collect();
    assert_eq!(indices, vec![2, 1, 3, 4]);
}

#[test]
fn lists_are_sorted_by_the_given_keys() {
    let keys = vec!["2".to_string(), "1".to_string(), "2".to_string()];
    let sorted = sorted_by_keys(vec![app(1, "a"), app(2, "b"), app(3, "c")], &keys);
    let indices: Vec<u32> = sorted.iter().map(|app| app.index).collect();
    assert_eq!(indices, vec![2, 1, 3]);
}

#[test]
fn snapshots_can_be_copied() {
    let mut inventory = Inventory::new();
    inventory.on_sink_input(ListResult::Item(stream(1, &[("application.name", "mpv")])));
    inventory.on_sink(ListResult::Item(sink(3, "usb")));
    let snapshot = inventory.snapshot();
    assert_eq!(format!("{:?}", snapshot.clone()), format!("{:?}", snapshot));
}

#[test]
fn snapshots_show_no_volume_above_the_cap() {
    let mut inventory = Inventory::new();
    let mut loud = stream(1, &[]);
    loud.volume = u32::MAX;
    inventory.on_sink_input(ListResult::Item(loud));
    assert_eq!(inventory.snapshot().apps[0].volume_percent, 150);
}
