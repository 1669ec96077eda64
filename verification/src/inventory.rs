//! What the monitor currently knows about the server.
use crate::listing::listed;
use crate::presentation::{app_record_stream, app_stream, sink_info, source_info};
use crate::server::{Facility, ListResult, Report, ServerSink, ServerSource, ServerStream};
use crate::streams::{
    copied_list, AppRecordStream, AppStream, DeviceView, SinkInfo, SnapshotView, SourceInfo,
    StreamSnapshot, StreamView,
};
use crate::volume::vol_to_percent;
use std::collections::HashMap;
use vstd::prelude::*;

verus! {

/// The streams and devices that the server has reported since they were last asked for, the
/// master volume, and whether something may have changed since.
pub struct Inventory {
    apps: HashMap<u32, AppStream>,
    recorders: HashMap<u32, AppRecordStream>,
    sinks: Vec<SinkInfo>,
    sources: Vec<SourceInfo>,
    master_volume: u32,
    master_muted: bool,
    needs_refresh: bool,
    default_sink: String,
}

/// What an inventory holds.
#[verifier::ext_equal]
pub struct InventoryView {
    pub apps: Map<u32, StreamView>,
    pub recorders: Map<u32, StreamView>,
    pub sinks: Seq<DeviceView>,
    pub sources: Seq<DeviceView>,
    pub master_volume: u32,
    pub master_muted: bool,
    pub needs_refresh: bool,
    pub default_sink: Seq<char>,
}

impl View for Inventory {
    type V = InventoryView;

    closed spec fn view(&self) -> InventoryView {
        InventoryView {
            apps: crate::listing::stream_views(self.apps@),
            recorders: crate::listing::stream_views(self.recorders@),
            sinks: self.sinks@.map_values(|sink: SinkInfo| sink@),
            sources: self.sources@.map_values(|source: SourceInfo| source@),
            master_volume: self.master_volume,
            master_muted: self.master_muted,
            needs_refresh: self.needs_refresh,
            default_sink: self.default_sink@,
        }
    }
}

/// Whether streams are kept under their own index, none above the cap.
pub open spec fn streams_wf(streams: Map<u32, StreamView>) -> bool {
    &&& crate::listing::keyed_by_index(streams)
    &&& forall|index: u32| #[trigger]
        streams.contains_key(index) ==> streams[index].volume_percent
            <= crate::volume::PERCENT_MAX
}

/// Whether a change in `facility` calls for a refresh.
pub open spec fn is_relevant(facility: Option<Facility>) -> bool {
    ||| facility == Some(Facility::SinkInput)
    ||| facility == Some(Facility::Sink)
    ||| facility == Some(Facility::SourceOutput)
    ||| facility == Some(Facility::Source)
}

impl InventoryView {
    /// Every stream is kept under its own index, and no volume is above the cap.
    pub open spec fn wf(self) -> bool {
        &&& streams_wf(self.apps)
        &&& streams_wf(self.recorders)
        &&& self.master_volume <= crate::volume::PERCENT_MAX
    }

    /// Nothing known yet: the master volume counts as 100 %, unmuted, and a refresh is due.
    pub open spec fn initial() -> Self {
        InventoryView {
            apps: Map::empty(),
            recorders: Map::empty(),
            sinks: Seq::empty(),
            sources: Seq::empty(),
            master_volume: 100,
            master_muted: false,
            needs_refresh: true,
            default_sink: Seq::empty(),
        }
    }

    /// After a change event.
    pub open spec fn after_change(self, facility: Option<Facility>) -> Self {
        InventoryView { needs_refresh: self.needs_refresh || is_relevant(facility), ..self }
    }

    /// After the server has named its default sink, or named none.
    pub open spec fn after_server(self, default_sink: Option<Seq<char>>) -> Self {
        match default_sink {
            Some(name) => InventoryView { default_sink: name, ..self },
            None => self,
        }
    }

    /// After an answer about the default sink.
    pub open spec fn after_default_sink(self, answer: ListResult<ServerSink>) -> Self {
        match answer {
            ListResult::Item(sink) => InventoryView {
                master_volume: crate::volume::percent_of(sink.volume as int) as u32,
                master_muted: sink.mute,
                ..self
            },
            _ => self,
        }
    }

    /// After an answer about playback streams.
    pub open spec fn after_sink_input(self, answer: ListResult<ServerStream>) -> Self {
        match answer {
            ListResult::Item(stream) if !crate::presentation::is_hidden_playback(
                stream@.proplist,
            ) => InventoryView {
                apps: self.apps.insert(stream@.index, crate::presentation::shown(stream@)),
                ..self
            },
            _ => self,
        }
    }

    /// After an answer about recording streams.
    pub open spec fn after_source_output(self, answer: ListResult<ServerStream>) -> Self {
        match answer {
            ListResult::Item(stream) if !crate::presentation::is_hidden_recording(
                stream@.proplist,
            ) => InventoryView {
                recorders: self.recorders.insert(
                    stream@.index,
                    crate::presentation::shown(stream@),
                ),
                ..self
            },
            _ => self,
        }
    }

    /// After an answer about output devices.
    pub open spec fn after_sink(self, answer: ListResult<ServerSink>) -> Self {
        match answer {
            ListResult::Item(sink) => InventoryView {
                sinks: self.sinks.push(
                    crate::presentation::shown_device(
                        sink.index,
                        crate::streams::optional_text(sink.name),
                        crate::streams::optional_text(sink.description),
                    ),
                ),
                ..self
            },
            _ => self,
        }
    }

    /// After an answer about input devices.
    pub open spec fn after_source(self, answer: ListResult<ServerSource>) -> Self {
        match answer {
            ListResult::Item(source) if source.monitor_of_sink is None => InventoryView {
                sources: self.sources.push(
                    crate::presentation::shown_device(
                        source.index,
                        crate::streams::optional_text(source.name),
                        crate::streams::optional_text(source.description),
                    ),
                ),
                ..self
            },
            _ => self,
        }
    }

    /// After a report.
    pub open spec fn after_report(self, report: Report) -> Self {
        match report {
            Report::Change(facility) => self.after_change(facility),
            Report::Server(default_sink) => self.after_server(
                crate::streams::optional_text(default_sink),
            ),
            Report::DefaultSink(answer) => self.after_default_sink(answer),
            Report::SinkInput(answer) => self.after_sink_input(answer),
            Report::Sink(answer) => self.after_sink(answer),
            Report::Source(answer) => self.after_source(answer),
            Report::SourceOutput(answer) => self.after_source_output(answer),
        }
    }

    /// Whether a snapshot shows this inventory: each stream once, in alphabetical order, the
    /// devices in the order of their reports, and the master volume.
    pub open spec fn is_shown_by(self, snapshot: SnapshotView) -> bool {
        &&& crate::listing::lists(self.apps, snapshot.apps)
        &&& crate::listing::is_alphabetical(snapshot.apps)
        &&& crate::listing::lists(self.recorders, snapshot.recorders)
        &&& crate::listing::is_alphabetical(snapshot.recorders)
        &&& snapshot.sinks == self.sinks
        &&& snapshot.sources == self.sources
        &&& snapshot.master_volume == self.master_volume
        &&& snapshot.master_muted == self.master_muted
    }
}

impl Inventory {
    /// An inventory in which nothing is known yet and a refresh is due.
    pub fn new() -> (inventory: Self)
        ensures
            inventory@ == InventoryView::initial(),
            inventory@.wf(),
    {
        let inventory = Inventory {
            apps: HashMap::new(),
            recorders: HashMap::new(),
            sinks: Vec::new(),
            sources: Vec::new(),
            master_volume: 100,
            master_muted: false,
            needs_refresh: true,
            default_sink: String::new(),
        };
        assert(inventory@ =~= InventoryView::initial());
        inventory
    }

    /// Whether a refresh is due.
    pub fn needs_refresh(&self) -> (due: bool)
        ensures
            due == self@.needs_refresh,
    {
        self.needs_refresh
    }

    /// Records whether a refresh is due.
    pub fn set_needs_refresh(&mut self, due: bool)
        ensures
            final(self)@ == (InventoryView { needs_refresh: due, ..old(self)@ }),
            old(self)@.wf() ==> final(self)@.wf(),
    {
        self.needs_refresh = due;
    }

    /// The name of the default sink; empty while it is not known.
    pub fn default_sink(&self) -> (name: String)
        ensures
            name@ == self@.default_sink,
    {
        self.default_sink.clone()
    }

    /// Takes note of a change event: a change of a stream or a device calls for a refresh, any
    /// other change does not.
    pub fn on_change(&mut self, facility: Option<Facility>)
        ensures
            final(self)@ == old(self)@.after_change(facility),
            old(self)@.wf() ==> final(self)@.wf(),
    {
        if let Some(facility) = facility {
            match facility {
                Facility::SinkInput
                | Facility::Sink
                | Facility::SourceOutput
                | Facility::Source => {
                    self.needs_refresh = true;
                },
                _ => {},
            }
        }
    }

    /// Takes note of the name of the default sink, where the server gives one.
    pub fn on_server_info(&mut self, default_sink_name: Option<String>)
        ensures
            final(self)@ == old(self)@.after_server(
                crate::streams::optional_text(default_sink_name),
            ),
            old(self)@.wf() ==> final(self)@.wf(),
    {
        if let Some(name) = default_sink_name {
            self.default_sink = name;
        }
    }

    /// Takes note of the volume of the default sink.
    pub fn on_default_sink(&mut self, answer: ListResult<ServerSink>)
        ensures
            final(self)@ == old(self)@.after_default_sink(answer),
            old(self)@.wf() ==> final(self)@.wf(),
    {
        if let ListResult::Item(sink) = answer {
            self.master_volume = vol_to_percent(sink.volume);
            self.master_muted = sink.mute;
        }
    }

    /// Takes note of a playback stream, unless it is one that is kept out of the list.
    pub fn on_sink_input(&mut self, answer: ListResult<ServerStream>)
        ensures
            final(self)@ == old(self)@.after_sink_input(answer),
            old(self)@.wf() ==> final(self)@.wf(),
    {
        broadcast use vstd::std_specs::hash::group_hash_axioms;

        if let ListResult::Item(stream) = answer {
            proof {
                crate::presentation::shown_volume_is_capped(stream@);
            }
            if let Some(app) = app_stream(&stream) {
                self.apps.insert(stream.index, app);
            }
        }
        assert(self@.apps =~= old(self)@.after_sink_input(answer).apps);
    }

    /// Takes note of a recording stream, unless it is one that is kept out of the list.
    pub fn on_source_output(&mut self, answer: ListResult<ServerStream>)
        ensures
            final(self)@ == old(self)@.after_source_output(answer),
            old(self)@.wf() ==> final(self)@.wf(),
    {
        broadcast use vstd::std_specs::hash::group_hash_axioms;

        if let ListResult::Item(stream) = answer {
            proof {
                crate::presentation::shown_volume_is_capped(stream@);
            }
            if let Some(recorder) = app_record_stream(&stream) {
                self.recorders.insert(stream.index, recorder);
            }
        }
        assert(self@.recorders =~= old(self)@.after_source_output(answer).recorders);
    }

    /// Takes note of an output device.
    pub fn on_sink(&mut self, answer: ListResult<ServerSink>)
        ensures
            final(self)@ == old(self)@.after_sink(answer),
            old(self)@.wf() ==> final(self)@.wf(),
    {
        if let ListResult::Item(sink) = answer {
            self.sinks.push(sink_info(sink));
        }
        assert(self@.sinks =~= old(self)@.after_sink(answer).sinks);
    }

    /// Takes note of an input device, unless it only repeats what a sink plays.
    pub fn on_source(&mut self, answer: ListResult<ServerSource>)
        ensures
            final(self)@ == old(self)@.after_source(answer),
            old(self)@.wf() ==> final(self)@.wf(),
    {
        if let ListResult::Item(source) = answer {
            if let Some(info) = source_info(source) {
                self.sources.push(info);
            }
        }
        assert(self@.sources =~= old(self)@.after_source(answer).sources);
    }

    /// Takes note of a report.
    pub fn hear(&mut self, report: Report)
        ensures
            final(self)@ == old(self)@.after_report(report),
            old(self)@.wf() ==> final(self)@.wf(),
    {
        match report {
            Report::Change(facility) => self.on_change(facility),
            Report::Server(default_sink) => self.on_server_info(default_sink),
            Report::DefaultSink(answer) => self.on_default_sink(answer),
            Report::SinkInput(answer) => self.on_sink_input(answer),
            Report::Sink(answer) => self.on_sink(answer),
            Report::Source(answer) => self.on_source(answer),
            Report::SourceOutput(answer) => self.on_source_output(answer),
        }
    }

    /// Forgets the playback streams.
    pub fn clear_apps(&mut self)
        ensures
            final(self)@ == (InventoryView { apps: Map::empty(), ..old(self)@ }),
            old(self)@.wf() ==> final(self)@.wf(),
    {
        self.apps.clear();
        assert(self@.apps =~= Map::<u32, StreamView>::empty());
    }

    /// Forgets the recording streams.
    pub fn clear_recorders(&mut self)
        ensures
            final(self)@ == (InventoryView { recorders: Map::empty(), ..old(self)@ }),
            old(self)@.wf() ==> final(self)@.wf(),
    {
        self.recorders.clear();
        assert(self@.recorders =~= Map::<u32, StreamView>::empty());
    }

    /// Forgets the output devices.
    pub fn clear_sinks(&mut self)
        ensures
            final(self)@ == (InventoryView { sinks: Seq::empty(), ..old(self)@ }),
            old(self)@.wf() ==> final(self)@.wf(),
    {
        self.sinks.clear();
        assert(self@.sinks =~= Seq::<DeviceView>::empty());
    }

    /// Forgets the input devices.
    pub fn clear_sources(&mut self)
        ensures
            final(self)@ == (InventoryView { sources: Seq::empty(), ..old(self)@ }),
            old(self)@.wf() ==> final(self)@.wf(),
    {
        self.sources.clear();
        assert(self@.sources =~= Seq::<DeviceView>::empty());
    }

    /// The snapshot that shows this inventory.
    pub fn snapshot(&self) -> (snapshot: StreamSnapshot)
        requires
            self@.wf(),
        ensures
            self@.is_shown_by(snapshot@),
    {
        let snapshot = StreamSnapshot {
            apps: listed(&self.apps),
            recorders: listed(&self.recorders),
            sinks: copied_list(&self.sinks),
            sources: copied_list(&self.sources),
            master_volume: self.master_volume,
            master_muted: self.master_muted,
        };
        assert(snapshot@.apps == crate::listing::list_views(snapshot.apps@));
        assert(snapshot@.recorders == crate::listing::list_views(snapshot.recorders@));
        snapshot
    }
}

/// A snapshot of a sound inventory shows no volume above the cap.
pub proof fn snapshot_is_capped(inventory: InventoryView, snapshot: SnapshotView)
    requires
        inventory.wf(),
        inventory.is_shown_by(snapshot),
    ensures
        snapshot.master_volume <= crate::volume::PERCENT_MAX,
        forall|i: int|
            0 <= i < snapshot.apps.len() ==> (#[trigger] snapshot.apps[i]).volume_percent
                <= crate::volume::PERCENT_MAX,
        forall|i: int|
            0 <= i < snapshot.recorders.len() ==> (#[trigger] snapshot.recorders[i]).volume_percent
                <= crate::volume::PERCENT_MAX,
{
    assert forall|i: int| 0 <= i < snapshot.apps.len() implies (
    #[trigger] snapshot.apps[i]).volume_percent <= crate::volume::PERCENT_MAX by {
        assert(inventory.apps.contains_key(snapshot.apps[i].index));
    }
    assert forall|i: int| 0 <= i < snapshot.recorders.len() implies (
    #[trigger] snapshot.recorders[i]).volume_percent <= crate::volume::PERCENT_MAX by {
        assert(inventory.recorders.contains_key(snapshot.recorders[i].index));
    }
}

/// Where no two streams on one side have the same name but for their case, an inventory has only
/// one snapshot.
pub proof fn snapshot_is_unique(inventory: InventoryView, left: SnapshotView, right: SnapshotView)
    requires
        crate::listing::names_differ(inventory.apps),
        crate::listing::names_differ(inventory.recorders),
        inventory.is_shown_by(left),
        inventory.is_shown_by(right),
    ensures
        left == right,
{
    crate::listing::listing_is_unique(inventory.apps, left.apps, right.apps);
    crate::listing::listing_is_unique(inventory.recorders, left.recorders, right.recorders);
}

/// A snapshot is a true picture of its inventory: each listed stream stands in it once, exactly as
/// it is listed, and nothing else does; names never fall, upper and lower case alike; devices and
/// master are those of the inventory.
pub proof fn snapshot_is_true(inventory: InventoryView, snapshot: SnapshotView, index: u32)
    requires
        inventory.wf(),
        inventory.is_shown_by(snapshot),
    ensures
        inventory.apps.contains_key(index) ==> exists|i: int|
            0 <= i < snapshot.apps.len() && #[trigger] snapshot.apps[i] == inventory.apps[index],
        forall|i: int|
            0 <= i < snapshot.apps.len() ==> inventory.apps.contains_key(
                (#[trigger] snapshot.apps[i]).index,
            ) && inventory.apps[snapshot.apps[i].index] == snapshot.apps[i],
        forall|i: int, j: int|
            0 <= i < j < snapshot.apps.len() ==> (#[trigger] snapshot.apps[i]).index != (
            #[trigger] snapshot.apps[j]).index && crate::text::text_le(
                crate::text::lowercase(snapshot.apps[i].app_name),
                crate::text::lowercase(snapshot.apps[j].app_name),
            ),
        inventory.recorders.contains_key(index) ==> exists|i: int|
            0 <= i < snapshot.recorders.len() && #[trigger] snapshot.recorders[i]
                == inventory.recorders[index],
        forall|i: int|
            0 <= i < snapshot.recorders.len() ==> inventory.recorders.contains_key(
                (#[trigger] snapshot.recorders[i]).index,
            ) && inventory.recorders[snapshot.recorders[i].index] == snapshot.recorders[i],
        forall|i: int, j: int|
            0 <= i < j < snapshot.recorders.len() ==> (#[trigger] snapshot.recorders[i]).index != (
            #[trigger] snapshot.recorders[j]).index && crate::text::text_le(
                crate::text::lowercase(snapshot.recorders[i].app_name),
                crate::text::lowercase(snapshot.recorders[j].app_name),
            ),
        snapshot.sinks == inventory.sinks,
        snapshot.sources == inventory.sources,
        snapshot.master_volume == inventory.master_volume,
        snapshot.master_muted == inventory.master_muted,
{
    if inventory.apps.contains_key(index) {
        assert(snapshot.apps.contains(inventory.apps[index]));
    }
    if inventory.recorders.contains_key(index) {
        assert(snapshot.recorders.contains(inventory.recorders[index]));
    }
}

} // verus!
