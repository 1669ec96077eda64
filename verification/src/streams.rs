//! The streams, devices and snapshots that the user interface is shown.
use vstd::prelude::*;

verus! {

/// Info about a single app's audio stream.
#[derive(Debug)]
pub struct AppStream {
    pub index: u32,
    pub app_name: String,
    pub icon_name: Option<String>,
    pub volume_percent: u32,
    pub muted: bool,
    pub sink_index: u32,
}

/// Info about a single app's recording (input) stream.
#[derive(Debug)]
pub struct AppRecordStream {
    pub index: u32,
    pub app_name: String,
    pub icon_name: Option<String>,
    pub volume_percent: u32,
    pub muted: bool,
    pub source_index: u32,
}

/// Info about an output device (sink).
#[derive(Debug)]
pub struct SinkInfo {
    pub index: u32,
    pub name: String,
    pub description: String,
}

/// Info about an input device (source).
#[derive(Debug)]
pub struct SourceInfo {
    pub index: u32,
    pub name: String,
    pub description: String,
}

/// Snapshot of all active app streams + master volume + available sinks.
#[derive(Debug)]
pub struct StreamSnapshot {
    pub apps: Vec<AppStream>,
    pub recorders: Vec<AppRecordStream>,
    pub sinks: Vec<SinkInfo>,
    pub sources: Vec<SourceInfo>,
    pub master_volume: u32,
    pub master_muted: bool,
}

/// What an app's stream says, on either side: `device` is the sink of a playback stream and the
/// source of a recording stream.
pub struct StreamView {
    pub index: u32,
    pub app_name: Seq<char>,
    pub icon_name: Option<Seq<char>>,
    pub volume_percent: u32,
    pub muted: bool,
    pub device: u32,
}

/// What a device says, on either side.
pub struct DeviceView {
    pub index: u32,
    pub name: Seq<char>,
    pub description: Seq<char>,
}

/// What a snapshot says.
#[verifier::ext_equal]
pub struct SnapshotView {
    pub apps: Seq<StreamView>,
    pub recorders: Seq<StreamView>,
    pub sinks: Seq<DeviceView>,
    pub sources: Seq<DeviceView>,
    pub master_volume: u32,
    pub master_muted: bool,
}

/// The text of an optional string.
pub open spec fn optional_text(text: Option<String>) -> Option<Seq<char>> {
    match text {
        Some(text) => Some(text@),
        None => None,
    }
}

impl View for AppStream {
    type V = StreamView;

    open spec fn view(&self) -> StreamView {
        StreamView {
            index: self.index,
            app_name: self.app_name@,
            icon_name: optional_text(self.icon_name),
            volume_percent: self.volume_percent,
            muted: self.muted,
            device: self.sink_index,
        }
    }
}

impl View for AppRecordStream {
    type V = StreamView;

    open spec fn view(&self) -> StreamView {
        StreamView {
            index: self.index,
            app_name: self.app_name@,
            icon_name: optional_text(self.icon_name),
            volume_percent: self.volume_percent,
            muted: self.muted,
            device: self.source_index,
        }
    }
}

impl View for SinkInfo {
    type V = DeviceView;

    open spec fn view(&self) -> DeviceView {
        DeviceView { index: self.index, name: self.name@, description: self.description@ }
    }
}

impl View for SourceInfo {
    type V = DeviceView;

    open spec fn view(&self) -> DeviceView {
        DeviceView { index: self.index, name: self.name@, description: self.description@ }
    }
}

impl View for StreamSnapshot {
    type V = SnapshotView;

    open spec fn view(&self) -> SnapshotView {
        SnapshotView {
            apps: self.apps@.map_values(|app: AppStream| app@),
            recorders: self.recorders@.map_values(|recorder: AppRecordStream| recorder@),
            sinks: self.sinks@.map_values(|sink: SinkInfo| sink@),
            sources: self.sources@.map_values(|source: SourceInfo| source@),
            master_volume: self.master_volume,
            master_muted: self.master_muted,
        }
    }
}

impl Clone for AppStream {
    fn clone(&self) -> (copy: Self)
        ensures
            copy == *self,
    {
        AppStream {
            index: self.index,
            app_name: self.app_name.clone(),
            icon_name: self.icon_name.clone(),
            volume_percent: self.volume_percent,
            muted: self.muted,
            sink_index: self.sink_index,
        }
    }
}

impl Clone for AppRecordStream {
    fn clone(&self) -> (copy: Self)
        ensures
            copy == *self,
    {
        AppRecordStream {
            index: self.index,
            app_name: self.app_name.clone(),
            icon_name: self.icon_name.clone(),
            volume_percent: self.volume_percent,
            muted: self.muted,
            source_index: self.source_index,
        }
    }
}

impl Clone for SinkInfo {
    fn clone(&self) -> (copy: Self)
        ensures
            copy == *self,
    {
        SinkInfo {
            index: self.index,
            name: self.name.clone(),
            description: self.description.clone(),
        }
    }
}

impl Clone for SourceInfo {
    fn clone(&self) -> (copy: Self)
        ensures
            copy == *self,
    {
        SourceInfo {
            index: self.index,
            name: self.name.clone(),
            description: self.description.clone(),
        }
    }
}

/// Copies a list whose entries' clones are exact.
pub(crate) fn copied_list<T: Clone>(items: &Vec<T>) -> (copy: Vec<T>)
    requires
        forall|original: T, clone: T| #[trigger] cloned(original, clone) ==> clone == original,
    ensures
        copy@ == items@,
{
    let copy = items.clone();
    assert(copy@ =~= items@);
    copy
}

impl Clone for StreamSnapshot {
    fn clone(&self) -> (copy: Self)
        ensures
            copy@ == self@,
    {
        StreamSnapshot {
            apps: copied_list(&self.apps),
            recorders: copied_list(&self.recorders),
            sinks: copied_list(&self.sinks),
            sources: copied_list(&self.sources),
            master_volume: self.master_volume,
            master_muted: self.master_muted,
        }
    }
}

/// A playback stream says what its fields hold.
pub proof fn app_stream_says_its_fields(app: AppStream)
    ensures
        app@.index == app.index,
        app@.app_name == app.app_name@,
        app@.icon_name is Some <==> app.icon_name is Some,
        app.icon_name matches Some(icon) ==> app@.icon_name == Some(icon@),
        app@.volume_percent == app.volume_percent,
        app@.muted == app.muted,
        app@.device == app.sink_index,
{
}

/// A recording stream says what its fields hold.
pub proof fn record_stream_says_its_fields(app: AppRecordStream)
    ensures
        app@.index == app.index,
        app@.app_name == app.app_name@,
        app@.icon_name is Some <==> app.icon_name is Some,
        app.icon_name matches Some(icon) ==> app@.icon_name == Some(icon@),
        app@.volume_percent == app.volume_percent,
        app@.muted == app.muted,
        app@.device == app.source_index,
{
}

/// Devices say what their fields hold.
pub proof fn devices_say_their_fields(sink: SinkInfo, source: SourceInfo)
    ensures
        sink@.index == sink.index,
        sink@.name == sink.name@,
        sink@.description == sink.description@,
        source@.index == source.index,
        source@.name == source.name@,
        source@.description == source.description@,
{
}

/// A snapshot says what its fields hold, entry by entry.
pub proof fn snapshot_says_its_fields(snapshot: StreamSnapshot)
    ensures
        snapshot@.apps.len() == snapshot.apps@.len(),
        forall|i: int|
            0 <= i < snapshot.apps@.len() ==> #[trigger] snapshot@.apps[i] == snapshot.apps@[i]@,
        snapshot@.recorders.len() == snapshot.recorders@.len(),
        forall|i: int|
            0 <= i < snapshot.recorders@.len() ==> #[trigger] snapshot@.recorders[i]
                == snapshot.recorders@[i]@,
        snapshot@.sinks.len() == snapshot.sinks@.len(),
        forall|i: int|
            0 <= i < snapshot.sinks@.len() ==> #[trigger] snapshot@.sinks[i]
                == snapshot.sinks@[i]@,
        snapshot@.sources.len() == snapshot.sources@.len(),
        forall|i: int|
            0 <= i < snapshot.sources@.len() ==> #[trigger] snapshot@.sources[i]
                == snapshot.sources@[i]@,
        snapshot@.master_volume == snapshot.master_volume,
        snapshot@.master_muted == snapshot.master_muted,
{
}

} // verus!
