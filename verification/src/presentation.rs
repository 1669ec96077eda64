//! Which streams and devices are shown, and what they are shown as.
use crate::proplist::Proplist;
use crate::server::{ServerSink, ServerSource, ServerStream, ServerStreamView};
use crate::streams::{AppRecordStream, AppStream, DeviceView, SinkInfo, SourceInfo, StreamView};
use crate::text::{push_decimal, same_text};
use crate::volume::vol_to_percent;
use vstd::prelude::*;

verus! {

/// `first`, or `second` where there is no `first`.
pub open spec fn or_else(first: Option<Seq<char>>, second: Option<Seq<char>>) -> Option<Seq<char>> {
    match first {
        Some(text) => Some(text),
        None => second,
    }
}

/// Whether a stream only plays an event sound.
pub open spec fn is_event_sound(properties: Map<Seq<char>, Seq<char>>) -> bool {
    crate::proplist::property(properties, "media.role"@) == Some("event"@)
}

/// The program that a stream belongs to.
pub open spec fn binary(properties: Map<Seq<char>, Seq<char>>) -> Option<Seq<char>> {
    crate::proplist::property(properties, "application.process.binary"@)
}

/// Whether a playback stream is kept out of the list: event sounds, the usual command-line
/// players, and the streams of the PulseAudio mixer.
pub open spec fn is_hidden_playback(properties: Map<Seq<char>, Seq<char>>) -> bool {
    ||| is_event_sound(properties)
    ||| binary(properties) == Some("pw-play"@)
    ||| binary(properties) == Some("paplay"@)
    ||| binary(properties) == Some("canberra-gtk-play"@)
    ||| binary(properties) == Some("aplay"@)
    ||| crate::proplist::property(properties, "application.id"@) == Some(
        "org.PulseAudio.pavucontrol"@,
    )
}

/// Whether a recording stream is kept out of the list: event sounds, the usual command-line
/// recorders, and the streams of mixers.
pub open spec fn is_hidden_recording(properties: Map<Seq<char>, Seq<char>>) -> bool {
    ||| is_event_sound(properties)
    ||| binary(properties) == Some("pw-record"@)
    ||| binary(properties) == Some("parec"@)
    ||| binary(properties) == Some("pavucontrol"@)
    ||| binary(properties) == Some("cosmic-applet-audio"@)
}

/// The name of a stream that nothing else gives a name to.
pub open spec fn numbered_name(index: u32) -> Seq<char> {
    "Stream "@ + crate::text::decimal(index as nat)
}

/// The name that a stream is listed under: the first that is there of the application's name, its
/// program, the media's name, the stream's own name, and its number.
pub open spec fn display_name(stream: ServerStreamView) -> Seq<char> {
    let properties = stream.proplist;
    let chosen = or_else(
        crate::proplist::property(properties, "application.name"@),
        or_else(
            binary(properties),
            or_else(crate::proplist::property(properties, "media.name"@), stream.name),
        ),
    );
    match chosen {
        Some(name) => name,
        None => numbered_name(stream.index),
    }
}

/// The icon that a stream asks for, before its name is put in lower case: the application's icon,
/// or else one named like its program.
pub open spec fn icon_source(properties: Map<Seq<char>, Seq<char>>) -> Option<Seq<char>> {
    or_else(
        crate::proplist::property(properties, "application.icon_name"@),
        binary(properties),
    )
}

/// The icon that a stream is shown with.
pub open spec fn icon_name(properties: Map<Seq<char>, Seq<char>>) -> Option<Seq<char>> {
    match icon_source(properties) {
        Some(icon) => Some(crate::text::lowercase(icon)),
        None => None,
    }
}

/// What a stream is listed as, with the given icon.
pub open spec fn described(stream: ServerStreamView, icon: Option<Seq<char>>) -> StreamView {
    StreamView {
        index: stream.index,
        app_name: display_name(stream),
        icon_name: icon,
        volume_percent: crate::volume::percent_of(stream.volume as int) as u32,
        muted: stream.mute,
        device: stream.device,
    }
}

/// What a stream is listed as.
pub open spec fn shown(stream: ServerStreamView) -> StreamView {
    described(stream, icon_name(stream.proplist))
}

/// What a device is listed as: without a name it is listed under the empty one, and without a
/// description under its name.
pub open spec fn shown_device(
    index: u32,
    name: Option<Seq<char>>,
    description: Option<Seq<char>>,
) -> DeviceView {
    let name = match name {
        Some(name) => name,
        None => Seq::empty(),
    };
    DeviceView {
        index,
        name,
        description: match description {
            Some(description) => description,
            None => name,
        },
    }
}

/// Whether the property under `key` is `value`.
fn has_property(properties: &Proplist, key: &str, value: &str) -> (has: bool)
    ensures
        has == (crate::proplist::property(properties@, key@) == Some(value@)),
{
    match properties.get_str(key) {
        Some(text) => same_text(&text, value),
        None => false,
    }
}

/// Decides whether a playback stream is kept out of the list.
pub fn hides_playback(properties: &Proplist) -> (hidden: bool)
    ensures
        hidden == is_hidden_playback(properties@),
{
    has_property(properties, "media.role", "event")
        || has_property(properties, "application.process.binary", "pw-play")
        || has_property(properties, "application.process.binary", "paplay")
        || has_property(properties, "application.process.binary", "canberra-gtk-play")
        || has_property(properties, "application.process.binary", "aplay")
        || has_property(properties, "application.id", "org.PulseAudio.pavucontrol")
}

/// Decides whether a recording stream is kept out of the list.
pub fn hides_recording(properties: &Proplist) -> (hidden: bool)
    ensures
        hidden == is_hidden_recording(properties@),
{
    has_property(properties, "media.role", "event")
        || has_property(properties, "application.process.binary", "pw-record")
        || has_property(properties, "application.process.binary", "parec")
        || has_property(properties, "application.process.binary", "pavucontrol")
        || has_property(properties, "application.process.binary", "cosmic-applet-audio")
}

/// The name that a stream is listed under.
pub fn stream_name(stream: &ServerStream) -> (name: String)
    ensures
        name@ == display_name(stream@),
{
    if let Some(name) = stream.proplist.get_str("application.name") {
        return name;
    }
    if let Some(name) = stream.proplist.get_str("application.process.binary") {
        return name;
    }
    if let Some(name) = stream.proplist.get_str("media.name") {
        return name;
    }
    if let Some(name) = &stream.name {
        return name.clone();
    }
    let mut name: String = "Stream ".to_owned();
    push_decimal(&mut name, stream.index);
    name
}

/// The icon that a stream asks for, before its name is put in lower case.
pub fn stream_icon_source(properties: &Proplist) -> (icon: Option<String>)
    ensures
        crate::streams::optional_text(icon) == icon_source(properties@),
{
    match properties.get_str("application.icon_name") {
        Some(icon) => Some(icon),
        None => properties.get_str("application.process.binary"),
    }
}

/// The icon that a stream is shown with.
pub fn stream_icon(properties: &Proplist) -> (icon: Option<String>)
    ensures
        crate::streams::optional_text(icon) == icon_name(properties@),
{
    match stream_icon_source(properties) {
        Some(icon) => Some(icon.as_str().to_lowercase()),
        None => None,
    }
}

/// Lists a playback stream with the given icon.
pub fn describe_playback(stream: &ServerStream, icon_name: Option<String>) -> (app: AppStream)
    ensures
        app@ == described(stream@, crate::streams::optional_text(icon_name)),
{
    AppStream {
        index: stream.index,
        app_name: stream_name(stream),
        icon_name,
        volume_percent: vol_to_percent(stream.volume),
        muted: stream.mute,
        sink_index: stream.device,
    }
}

/// Lists a recording stream with the given icon.
pub fn describe_recording(stream: &ServerStream, icon_name: Option<String>) -> (app:
    AppRecordStream)
    ensures
        app@ == described(stream@, crate::streams::optional_text(icon_name)),
{
    AppRecordStream {
        index: stream.index,
        app_name: stream_name(stream),
        icon_name,
        volume_percent: vol_to_percent(stream.volume),
        muted: stream.mute,
        source_index: stream.device,
    }
}

/// Lists a playback stream, unless it is one that is kept out.
pub fn app_stream(stream: &ServerStream) -> (app: Option<AppStream>)
    ensures
        app is None <==> is_hidden_playback(stream@.proplist),
        app matches Some(app) ==> app@ == shown(stream@),
{
    if hides_playback(&stream.proplist) {
        return None;
    }
    Some(describe_playback(stream, stream_icon(&stream.proplist)))
}

/// Lists a recording stream, unless it is one that is kept out.
pub fn app_record_stream(stream: &ServerStream) -> (app: Option<AppRecordStream>)
    ensures
        app is None <==> is_hidden_recording(stream@.proplist),
        app matches Some(app) ==> app@ == shown(stream@),
{
    if hides_recording(&stream.proplist) {
        return None;
    }
    Some(describe_recording(stream, stream_icon(&stream.proplist)))
}

/// The name and the description that a device is listed under.
fn device_texts(name: Option<String>, description: Option<String>) -> (texts: (String, String))
    ensures
        forall|index: u32|
            (#[trigger] shown_device(
                index,
                crate::streams::optional_text(name),
                crate::streams::optional_text(description),
            )) == (DeviceView { index, name: texts.0@, description: texts.1@ }),
{
    let name: String = match name {
        Some(name) => name,
        None => String::new(),
    };
    let description: String = match description {
        Some(description) => description,
        None => name.clone(),
    };
    (name, description)
}

/// Lists an output device.
pub fn sink_info(sink: ServerSink) -> (info: SinkInfo)
    ensures
        info@ == shown_device(
            sink.index,
            crate::streams::optional_text(sink.name),
            crate::streams::optional_text(sink.description),
        ),
{
    let index: u32 = sink.index;
    let (name, description) = device_texts(sink.name, sink.description);
    SinkInfo { index, name, description }
}

/// Lists an input device, unless it only repeats what a sink plays.
pub fn source_info(source: ServerSource) -> (info: Option<SourceInfo>)
    ensures
        info is None <==> source.monitor_of_sink is Some,
        info matches Some(info) ==> info@ == shown_device(
            source.index,
            crate::streams::optional_text(source.name),
            crate::streams::optional_text(source.description),
        ),
{
    if source.monitor_of_sink.is_some() {
        return None;
    }
    let index: u32 = source.index;
    let (name, description) = device_texts(source.name, source.description);
    Some(SourceInfo { index, name, description })
}

/// Streams that nothing gives a name to are still told apart: different streams get different
/// numbered names.
pub proof fn numbered_names_differ(left: u32, right: u32)
    requires
        left != right,
    ensures
        numbered_name(left) != numbered_name(right),
{
    let prefix = "Stream "@;
    if numbered_name(left) == numbered_name(right) {
        assert(numbered_name(left).skip(prefix.len() as int) =~= crate::text::decimal(left as nat));
        assert(numbered_name(right).skip(prefix.len() as int) =~= crate::text::decimal(
            right as nat,
        ));
        crate::text::decimal_injective(left as nat, right as nat);
    }
}

/// No stream is listed as louder than the cap.
pub proof fn shown_volume_is_capped(stream: ServerStreamView)
    ensures
        shown(stream).volume_percent <= crate::volume::PERCENT_MAX,
{
    crate::volume::percent_of_monotone(0, stream.volume as int);
    crate::volume::reference_points();
}

} // verus!
