//! What becomes of a report, told by the properties that it carries.
use crate::inventory::InventoryView;
use crate::server::{Facility, ListResult, Report, ServerSink, ServerSource, ServerStream};
use crate::streams::{DeviceView, StreamView};
use vstd::prelude::*;

verus! {

/// Whether a property is there and has the given text.
pub open spec fn says(
    properties: Map<Seq<char>, Seq<char>>,
    key: Seq<char>,
    value: Seq<char>,
) -> bool {
    properties.contains_key(key) && properties[key] == value
}

/// Whether two property lists agree on a key.
pub open spec fn agree(
    left: Map<Seq<char>, Seq<char>>,
    right: Map<Seq<char>, Seq<char>>,
    key: Seq<char>,
) -> bool {
    &&& left.contains_key(key) <==> right.contains_key(key)
    &&& left.contains_key(key) ==> left[key] == right[key]
}

/// A report about a playback stream.
pub open spec fn playing(stream: ServerStream) -> Report {
    Report::SinkInput(ListResult::Item(stream))
}

/// A report about a recording stream.
pub open spec fn recording(stream: ServerStream) -> Report {
    Report::SourceOutput(ListResult::Item(stream))
}

/// An event sound changes nothing on either side, whatever else its stream says of itself.
pub proof fn event_sounds_change_nothing(inventory: InventoryView, stream: ServerStream)
    requires
        says(stream.proplist@, "media.role"@, "event"@),
    ensures
        inventory.after_report(playing(stream)) == inventory,
        inventory.after_report(recording(stream)) == inventory,
{
}

/// A command-line player changes nothing on the playback side, whatever else its stream says of
/// itself.
pub proof fn players_change_nothing(inventory: InventoryView, stream: ServerStream)
    requires
        ({
            let properties = stream.proplist@;
            ||| says(properties, "application.process.binary"@, "pw-play"@)
            ||| says(properties, "application.process.binary"@, "paplay"@)
            ||| says(properties, "application.process.binary"@, "canberra-gtk-play"@)
            ||| says(properties, "application.process.binary"@, "aplay"@)
        }),
    ensures
        inventory.after_report(playing(stream)) == inventory,
{
}

/// The mixer changes nothing on the playback side, whatever else its stream says of itself.
pub proof fn mixer_changes_nothing(inventory: InventoryView, stream: ServerStream)
    requires
        says(stream.proplist@, "application.id"@, "org.PulseAudio.pavucontrol"@),
    ensures
        inventory.after_report(playing(stream)) == inventory,
{
}

/// A command-line recorder or a mixer changes nothing on the recording side, whatever else its
/// stream says of itself.
pub proof fn recorders_change_nothing(inventory: InventoryView, stream: ServerStream)
    requires
        ({
            let properties = stream.proplist@;
            ||| says(properties, "application.process.binary"@, "pw-record"@)
            ||| says(properties, "application.process.binary"@, "parec"@)
            ||| says(properties, "application.process.binary"@, "pavucontrol"@)
            ||| says(properties, "application.process.binary"@, "cosmic-applet-audio"@)
        }),
    ensures
        inventory.after_report(recording(stream)) == inventory,
{
}

/// Whether nothing in a playback stream's properties keeps it out of the list.
pub open spec fn is_ordinary_playback(stream: ServerStream) -> bool {
    let properties = stream.proplist@;
    &&& !says(properties, "media.role"@, "event"@)
    &&& !says(properties, "application.process.binary"@, "pw-play"@)
    &&& !says(properties, "application.process.binary"@, "paplay"@)
    &&& !says(properties, "application.process.binary"@, "canberra-gtk-play"@)
    &&& !says(properties, "application.process.binary"@, "aplay"@)
    &&& !says(properties, "application.id"@, "org.PulseAudio.pavucontrol"@)
}

/// Whether nothing in a recording stream's properties keeps it out of the list.
pub open spec fn is_ordinary_recording(stream: ServerStream) -> bool {
    let properties = stream.proplist@;
    &&& !says(properties, "media.role"@, "event"@)
    &&& !says(properties, "application.process.binary"@, "pw-record"@)
    &&& !says(properties, "application.process.binary"@, "parec"@)
    &&& !says(properties, "application.process.binary"@, "pavucontrol"@)
    &&& !says(properties, "application.process.binary"@, "cosmic-applet-audio"@)
}

/// Every other playback stream is listed under its index, and no other entry changes.
pub proof fn ordinary_playback_is_listed(
    inventory: InventoryView,
    stream: ServerStream,
    other: u32,
)
    requires
        is_ordinary_playback(stream),
    ensures
        ({
            let before = inventory.apps;
            let after = inventory.after_report(playing(stream)).apps;
            &&& after.contains_key(stream.index)
            &&& other != stream.index ==> (after.contains_key(other) <==> before.contains_key(
                other,
            ))
            &&& other != stream.index ==> after[other] == before[other]
        }),
{
}

/// Every other recording stream is listed under its index, and no other entry changes.
pub proof fn ordinary_recording_is_listed(
    inventory: InventoryView,
    stream: ServerStream,
    other: u32,
)
    requires
        is_ordinary_recording(stream),
    ensures
        ({
            let before = inventory.recorders;
            let after = inventory.after_report(recording(stream)).recorders;
            &&& after.contains_key(stream.index)
            &&& other != stream.index ==> (after.contains_key(other) <==> before.contains_key(
                other,
            ))
            &&& other != stream.index ==> after[other] == before[other]
        }),
{
}

/// Whether a stream is listed depends on its role, its program and its application's id alone; on
/// the recording side, on its role and its program alone. No other property, its application's
/// name among them, and nothing else of the report makes a stream come or go.
pub proof fn nothing_else_decides(
    inventory: InventoryView,
    left: ServerStream,
    right: ServerStream,
)
    requires
        left.index == right.index,
        agree(left.proplist@, right.proplist@, "media.role"@),
        agree(left.proplist@, right.proplist@, "application.process.binary"@),
    ensures
        agree(left.proplist@, right.proplist@, "application.id"@) ==> inventory.after_report(
            playing(left),
        ).apps.dom() == inventory.after_report(playing(right)).apps.dom(),
        inventory.after_report(recording(left)).recorders.dom() == inventory.after_report(
            recording(right),
        ).recorders.dom(),
{
}

/// Whether a listed stream carries what was reported of it: its index, its mute flag, its device,
/// and the percentage nearest to its volume, capped.
pub open spec fn carries_settings(listed: StreamView, stream: ServerStream) -> bool {
    &&& listed.index == stream.index
    &&& listed.muted == stream.mute
    &&& listed.device == stream.device
    &&& is_percentage_of(listed.volume_percent, stream.volume)
}

/// Whether a percentage is the nearest one to a raw volume, capped at 150.
pub open spec fn is_percentage_of(percent: u32, volume: u32) -> bool {
    &&& percent <= 150
    &&& percent < 150 ==> -65536 < 2 * (percent * 65536 - volume * 100) <= 65536
    &&& percent == 150 ==> 2 * (volume * 100) >= 299 * 65536
}

/// Whether a listed stream has the name that is due to it: the first that is there of its
/// application's name, its program, its media's name and its own name, and else its number.
pub open spec fn carries_name(listed: StreamView, stream: ServerStream) -> bool {
    let properties = stream.proplist@;
    let application = properties.contains_key("application.name"@);
    let program = properties.contains_key("application.process.binary"@);
    let media = properties.contains_key("media.name"@);
    &&& application ==> listed.app_name == properties["application.name"@]
    &&& !application && program ==> listed.app_name == properties["application.process.binary"@]
    &&& !application && !program && media ==> listed.app_name == properties["media.name"@]
    &&& !application && !program && !media ==> match stream.name {
        Some(name) => listed.app_name == name@,
        None => listed.app_name == "Stream "@ + crate::text::decimal(stream.index as nat),
    }
}

/// Whether a listed stream has the icon that is due to it, in lower case: its application's icon,
/// and else its program, and else none.
pub open spec fn carries_icon(listed: StreamView, stream: ServerStream) -> bool {
    let properties = stream.proplist@;
    let icon = properties.contains_key("application.icon_name"@);
    let program = properties.contains_key("application.process.binary"@);
    &&& icon ==> listed.icon_name == Some(
        crate::text::lowercase(properties["application.icon_name"@]),
    )
    &&& !icon && program ==> listed.icon_name == Some(
        crate::text::lowercase(properties["application.process.binary"@]),
    )
    &&& !icon && !program ==> listed.icon_name is None
}

/// A playback stream is listed with its settings, its name and its icon, whatever was listed under
/// its index before.
pub proof fn listed_playback_is_true(inventory: InventoryView, stream: ServerStream)
    requires
        is_ordinary_playback(stream),
    ensures
        ({
            let listed = inventory.after_report(playing(stream)).apps[stream.index];
            &&& carries_settings(listed, stream)
            &&& carries_name(listed, stream)
            &&& carries_icon(listed, stream)
        }),
{
    crate::volume::percent_is_nearest(stream.volume);
}

/// A recording stream is listed with its settings, its name and its icon, whatever was listed under
/// its index before.
pub proof fn listed_recording_is_true(inventory: InventoryView, stream: ServerStream)
    requires
        is_ordinary_recording(stream),
    ensures
        ({
            let listed = inventory.after_report(recording(stream)).recorders[stream.index];
            &&& carries_settings(listed, stream)
            &&& carries_name(listed, stream)
            &&& carries_icon(listed, stream)
        }),
{
    crate::volume::percent_is_nearest(stream.volume);
}

/// The same holds of a stream that is described with a given icon: settings and name come from the
/// report, the icon is taken as it is.
pub proof fn description_is_true(stream: ServerStream, icon: Option<Seq<char>>)
    ensures
        carries_settings(crate::presentation::described(stream@, icon), stream),
        carries_name(crate::presentation::described(stream@, icon), stream),
        crate::presentation::described(stream@, icon).icon_name == icon,
{
    crate::volume::percent_is_nearest(stream.volume);
}

/// Visibility and naming are those of the functions that decide them: what is stated of listed
/// streams holds of each decision by itself.
pub proof fn decisions_are_those_of_the_list(stream: ServerStream)
    ensures
        crate::presentation::is_hidden_playback(stream.proplist@) <==> !is_ordinary_playback(
            stream,
        ),
        crate::presentation::is_hidden_recording(stream.proplist@) <==> !is_ordinary_recording(
            stream,
        ),
        carries_settings(crate::presentation::shown(stream@), stream),
        carries_name(crate::presentation::shown(stream@), stream),
        carries_icon(crate::presentation::shown(stream@), stream),
        crate::presentation::shown(stream@).app_name == crate::presentation::display_name(stream@),
        crate::presentation::shown(stream@).icon_name == crate::presentation::icon_name(
            stream.proplist@,
        ),
{
    crate::volume::percent_is_nearest(stream.volume);
}

/// The icon that a stream asks for is its application's, and else one named like its program.
pub proof fn icon_source_is_true(properties: Map<Seq<char>, Seq<char>>)
    ensures
        properties.contains_key("application.icon_name"@) ==> crate::presentation::icon_source(
            properties,
        ) == Some(properties["application.icon_name"@]),
        !properties.contains_key("application.icon_name"@) && properties.contains_key(
            "application.process.binary"@,
        ) ==> crate::presentation::icon_source(properties) == Some(
            properties["application.process.binary"@],
        ),
        !properties.contains_key("application.icon_name"@) && !properties.contains_key(
            "application.process.binary"@,
        ) ==> crate::presentation::icon_source(properties) is None,
{
}

/// Whether a listed device carries the index, the name and the description that were reported:
/// without a name it has the empty one, and without a description its name.
pub open spec fn carries_device(
    listed: DeviceView,
    index: u32,
    name: Option<String>,
    description: Option<String>,
) -> bool {
    &&& listed.index == index
    &&& name matches Some(name) ==> listed.name == name@
    &&& name is None ==> listed.name.len() == 0
    &&& description matches Some(description) ==> listed.description == description@
    &&& description is None ==> listed.description == listed.name
}

/// A reported output device comes last in the list, with its index, name and description; every
/// other entry stays as it is.
pub proof fn reported_sink_is_appended(inventory: InventoryView, sink: ServerSink)
    ensures
        ({
            let before = inventory.sinks;
            let after = inventory.after_report(Report::Sink(ListResult::Item(sink))).sinks;
            &&& after.len() == before.len() + 1
            &&& after.take(before.len() as int) == before
            &&& carries_device(after.last(), sink.index, sink.name, sink.description)
        }),
{
    let after = inventory.after_report(Report::Sink(ListResult::Item(sink))).sinks;
    assert(after.take(inventory.sinks.len() as int) =~= inventory.sinks);
    if sink.name is None {
        assert(after.last().name =~= Seq::<char>::empty());
    }
}

/// A reported input device comes last in the list, with its index, name and description; every
/// other entry stays as it is. One that repeats what a sink plays changes nothing.
pub proof fn reported_source_is_appended(inventory: InventoryView, source: ServerSource)
    ensures
        ({
            let before = inventory.sources;
            let reported = inventory.after_report(Report::Source(ListResult::Item(source)));
            let after = reported.sources;
            &&& source.monitor_of_sink is Some ==> reported == inventory
            &&& source.monitor_of_sink is None ==> {
                &&& after.len() == before.len() + 1
                &&& after.take(before.len() as int) == before
                &&& carries_device(after.last(), source.index, source.name, source.description)
            }
        }),
{
    let after = inventory.after_report(Report::Source(ListResult::Item(source))).sources;
    if source.monitor_of_sink is None {
        assert(after.take(inventory.sources.len() as int) =~= inventory.sources);
    }
}

/// The default sink is shown as it was last reported, whatever was shown before: its mute flag, and
/// the percentage nearest to its volume.
pub proof fn reported_default_sink_is_shown(inventory: InventoryView, sink: ServerSink)
    ensures
        ({
            let after = inventory.after_report(Report::DefaultSink(ListResult::Item(sink)));
            &&& after.master_muted == sink.mute
            &&& is_percentage_of(after.master_volume, sink.volume)
        }),
{
    crate::volume::percent_is_nearest(sink.volume);
}

/// The default sink has the name that the server last gave it; an answer without a name changes
/// nothing.
pub proof fn reported_name_is_kept(inventory: InventoryView, name: Option<String>)
    ensures
        name matches Some(text) ==> inventory.after_report(Report::Server(name)).default_sink
            == text@,
        name is None ==> inventory.after_report(Report::Server(name)) == inventory,
{
}

/// A change calls for a refresh if it is one of a playback stream, an output device, a recording
/// stream or an input device; any other change leaves the inventory as it is.
pub proof fn changes_that_matter(inventory: InventoryView, facility: Option<Facility>)
    ensures
        ({
            let after = inventory.after_report(Report::Change(facility));
            match facility {
                Some(Facility::SinkInput)
                | Some(Facility::Sink)
                | Some(Facility::SourceOutput)
                | Some(Facility::Source) => after.needs_refresh,
                _ => after == inventory,
            }
        }),
{
}

/// The monitor subscribes to the changes that matter, and to no others.
pub proof fn interests_matter(facility: Facility)
    ensures
        crate::monitor::interests_list().contains(facility) <==> match facility {
            Facility::SinkInput | Facility::Sink | Facility::SourceOutput | Facility::Source => {
                true
            },
            Facility::Module
            | Facility::Client
            | Facility::SampleCache
            | Facility::Server
            | Facility::Card => false,
        },
        crate::monitor::interests_list().no_duplicates(),
{
    let list = crate::monitor::interests_list();
    assert(list[0] == Facility::SinkInput && list[1] == Facility::Sink && list[2]
        == Facility::SourceOutput && list[3] == Facility::Source);
}

/// Each report touches its own part of the inventory alone.
pub proof fn reports_touch_their_part_alone(inventory: InventoryView, report: Report)
    ensures
        ({
            let after = inventory.after_report(report);
            &&& !(report is SinkInput) ==> after.apps == inventory.apps
            &&& !(report is SourceOutput) ==> after.recorders == inventory.recorders
            &&& !(report is Sink) ==> after.sinks == inventory.sinks
            &&& !(report is Source) ==> after.sources == inventory.sources
            &&& !(report is DefaultSink) ==> after.master_volume == inventory.master_volume
                && after.master_muted == inventory.master_muted
            &&& !(report is Server) ==> after.default_sink == inventory.default_sink
            &&& !(report is Change) ==> after.needs_refresh == inventory.needs_refresh
        }),
{
}

/// The end of a list, and an error in place of one, change nothing.
pub proof fn only_items_count(inventory: InventoryView, report: Report)
    requires
        match report {
            Report::SinkInput(answer) => !(answer is Item),
            Report::SourceOutput(answer) => !(answer is Item),
            Report::Sink(answer) => !(answer is Item),
            Report::DefaultSink(answer) => !(answer is Item),
            Report::Source(answer) => !(answer is Item),
            _ => false,
        },
    ensures
        inventory.after_report(report) == inventory,
{
}

} // verus!
