//! Commands of the user interface, and what they ask of the server.
use crate::volume::{percent_to_vol, ChannelVolumes};
use vstd::prelude::*;

verus! {

/// Commands from the UI to PulseAudio.
#[derive(Debug)]
pub enum PulseCommand {
    /// Sets the volume of a playback stream, in percent.
    SetAppVolume(u32, u32),
    /// Mutes or unmutes a playback stream.
    SetAppMute(u32, bool),
    /// Moves a playback stream to a sink.
    SetAppSink(u32, u32),
    /// Sets the volume of a recording stream, in percent.
    SetRecVolume(u32, u32),
    /// Mutes or unmutes a recording stream.
    SetRecMute(u32, bool),
    /// Moves a recording stream to a source.
    SetRecSource(u32, u32),
}

/// A request to the server about one of its streams, which the first field names.
#[derive(Debug, Clone, Copy, PartialEq, Eq, Structural)]
pub enum Request {
    SetSinkInputVolume(u32, ChannelVolumes),
    SetSinkInputMute(u32, bool),
    MoveSinkInput(u32, u32),
    SetSourceOutputVolume(u32, ChannelVolumes),
    SetSourceOutputMute(u32, bool),
    MoveSourceOutput(u32, u32),
}

/// The number of channels that a volume is requested for.
pub const REQUEST_CHANNELS: u8 = 2;

/// The volume that is requested for a percentage.
pub open spec fn requested_volume(percent: u32) -> ChannelVolumes {
    ChannelVolumes {
        channels: REQUEST_CHANNELS,
        volume: crate::volume::volume_of(percent as int) as u32,
    }
}

/// What a command asks of the server.
pub open spec fn requested(command: PulseCommand) -> Request {
    match command {
        PulseCommand::SetAppVolume(index, percent) => Request::SetSinkInputVolume(
            index,
            requested_volume(percent),
        ),
        PulseCommand::SetAppMute(index, mute) => Request::SetSinkInputMute(index, mute),
        PulseCommand::SetAppSink(index, sink) => Request::MoveSinkInput(index, sink),
        PulseCommand::SetRecVolume(index, percent) => Request::SetSourceOutputVolume(
            index,
            requested_volume(percent),
        ),
        PulseCommand::SetRecMute(index, mute) => Request::SetSourceOutputMute(index, mute),
        PulseCommand::SetRecSource(index, source) => Request::MoveSourceOutput(index, source),
    }
}

/// Turns a command into the request that carries it out.
pub fn request_for(command: PulseCommand) -> (request: Request)
    ensures
        request == requested(command),
{
    match command {
        PulseCommand::SetAppVolume(index, percent) => Request::SetSinkInputVolume(
            index,
            percent_to_vol(percent, REQUEST_CHANNELS),
        ),
        PulseCommand::SetAppMute(index, mute) => Request::SetSinkInputMute(index, mute),
        PulseCommand::SetAppSink(index, sink) => Request::MoveSinkInput(index, sink),
        PulseCommand::SetRecVolume(index, percent) => Request::SetSourceOutputVolume(
            index,
            percent_to_vol(percent, REQUEST_CHANNELS),
        ),
        PulseCommand::SetRecMute(index, mute) => Request::SetSourceOutputMute(index, mute),
        PulseCommand::SetRecSource(index, source) => Request::MoveSourceOutput(index, source),
    }
}

/// A volume command takes effect as it was given: a stream at the requested volume is shown with
/// the percentage of the command, up to the cap.
pub proof fn volume_command_round_trip(percent: u32)
    ensures
        crate::volume::percent_of(requested_volume(percent).volume as int) == if percent
            <= crate::volume::PERCENT_MAX {
            percent as int
        } else {
            crate::volume::PERCENT_MAX as int
        },
{
    crate::volume::percent_round_trip(percent);
    crate::volume::volume_of_monotone(0, percent as int);
    crate::volume::reference_points();
}

/// How a stream is set on the server.
pub struct StreamSettings {
    pub volume: ChannelVolumes,
    pub muted: bool,
    pub device: u32,
}

/// How the streams of a server are set.
#[verifier::ext_equal]
pub struct ServerSettings {
    pub playback: Map<u32, StreamSettings>,
    pub recording: Map<u32, StreamSettings>,
}

/// How the streams of a server are set once it has met a request.
pub open spec fn met(settings: ServerSettings, request: Request) -> ServerSettings {
    match request {
        Request::SetSinkInputVolume(index, volume) => ServerSettings {
            playback: settings.playback.insert(
                index,
                StreamSettings { volume, ..settings.playback[index] },
            ),
            ..settings
        },
        Request::SetSinkInputMute(index, muted) => ServerSettings {
            playback: settings.playback.insert(
                index,
                StreamSettings { muted, ..settings.playback[index] },
            ),
            ..settings
        },
        Request::MoveSinkInput(index, device) => ServerSettings {
            playback: settings.playback.insert(
                index,
                StreamSettings { device, ..settings.playback[index] },
            ),
            ..settings
        },
        Request::SetSourceOutputVolume(index, volume) => ServerSettings {
            recording: settings.recording.insert(
                index,
                StreamSettings { volume, ..settings.recording[index] },
            ),
            ..settings
        },
        Request::SetSourceOutputMute(index, muted) => ServerSettings {
            recording: settings.recording.insert(
                index,
                StreamSettings { muted, ..settings.recording[index] },
            ),
            ..settings
        },
        Request::MoveSourceOutput(index, device) => ServerSettings {
            recording: settings.recording.insert(
                index,
                StreamSettings { device, ..settings.recording[index] },
            ),
            ..settings
        },
    }
}

/// Whether a command is about a playback stream; otherwise it is about a recording stream.
pub open spec fn is_about_playback(command: PulseCommand) -> bool {
    command is SetAppVolume || command is SetAppMute || command is SetAppSink
}

/// The stream that a command names.
pub open spec fn named_stream(command: PulseCommand) -> u32 {
    match command {
        PulseCommand::SetAppVolume(index, _)
        | PulseCommand::SetAppMute(index, _)
        | PulseCommand::SetAppSink(index, _)
        | PulseCommand::SetRecVolume(index, _)
        | PulseCommand::SetRecMute(index, _)
        | PulseCommand::SetRecSource(index, _) => index,
    }
}

/// A command is about the stream that it names, on its own side: no other stream is touched, and no
/// stream comes or goes.
pub proof fn command_touches_its_stream_alone(
    settings: ServerSettings,
    command: PulseCommand,
    other: u32,
)
    requires
        is_about_playback(command) ==> settings.playback.contains_key(named_stream(command)),
        !is_about_playback(command) ==> settings.recording.contains_key(named_stream(command)),
    ensures
        ({
            let after = met(settings, requested(command));
            &&& is_about_playback(command) ==> after.recording == settings.recording
            &&& !is_about_playback(command) ==> after.playback == settings.playback
            &&& after.playback.contains_key(other) <==> settings.playback.contains_key(other)
            &&& after.recording.contains_key(other) <==> settings.recording.contains_key(other)
            &&& other != named_stream(command) ==> after.playback[other]
                == settings.playback[other]
            &&& other != named_stream(command) ==> after.recording[other]
                == settings.recording[other]
        }),
{
}

/// A mute command takes effect as it was given: the stream that it names is muted or not as the
/// command says, and keeps its volume and its device.
pub proof fn mute_takes_effect(settings: ServerSettings, index: u32, mute: bool)
    ensures
        ({
            let before = settings.playback[index];
            let after = met(settings, requested(PulseCommand::SetAppMute(index, mute)));
            &&& after.playback[index].muted == mute
            &&& after.playback[index].volume == before.volume
            &&& after.playback[index].device == before.device
        }),
        ({
            let before = settings.recording[index];
            let after = met(settings, requested(PulseCommand::SetRecMute(index, mute)));
            &&& after.recording[index].muted == mute
            &&& after.recording[index].volume == before.volume
            &&& after.recording[index].device == before.device
        }),
{
}

/// A move command takes effect as it was given: the stream that it names goes to the device that it
/// names, and keeps its volume and its mute flag.
pub proof fn move_takes_effect(settings: ServerSettings, index: u32, device: u32)
    ensures
        ({
            let before = settings.playback[index];
            let after = met(settings, requested(PulseCommand::SetAppSink(index, device)));
            &&& after.playback[index].device == device
            &&& after.playback[index].volume == before.volume
            &&& after.playback[index].muted == before.muted
        }),
        ({
            let before = settings.recording[index];
            let after = met(settings, requested(PulseCommand::SetRecSource(index, device)));
            &&& after.recording[index].device == device
            &&& after.recording[index].volume == before.volume
            &&& after.recording[index].muted == before.muted
        }),
{
}

/// A volume command takes effect as it was given: both channels of the stream that it names get the
/// raw volume nearest to the percentage, as far as it fits, and the stream keeps its mute flag and
/// its device.
pub proof fn volume_takes_effect(settings: ServerSettings, index: u32, percent: u32)
    ensures
        ({
            let before = settings.playback[index];
            let after = met(settings, requested(PulseCommand::SetAppVolume(index, percent)));
            &&& is_volume_for(after.playback[index].volume, percent)
            &&& after.playback[index].muted == before.muted
            &&& after.playback[index].device == before.device
        }),
        ({
            let before = settings.recording[index];
            let after = met(settings, requested(PulseCommand::SetRecVolume(index, percent)));
            &&& is_volume_for(after.recording[index].volume, percent)
            &&& after.recording[index].muted == before.muted
            &&& after.recording[index].device == before.device
        }),
{
    crate::volume::volume_is_nearest(percent);
}

/// Whether a raw volume is the nearest one to a percentage, on two channels.
pub open spec fn is_volume_for(volume: ChannelVolumes, percent: u32) -> bool {
    &&& volume.channels == 2
    &&& percent < 6_553_600 ==> -100 < 2 * (volume.volume * 100 - percent * 65536) <= 100
    &&& percent >= 6_553_600 ==> volume.volume == u32::MAX
}

/// Whether a command asks for a volume that fits.
pub open spec fn volume_fits(command: PulseCommand) -> bool {
    match command {
        PulseCommand::SetAppVolume(_, percent) | PulseCommand::SetRecVolume(_, percent) => percent
            <= 6_553_600,
        _ => true,
    }
}

/// Commands that differ ask for different things.
pub proof fn different_commands_differ(left: PulseCommand, right: PulseCommand)
    requires
        left != right,
        volume_fits(left),
        volume_fits(right),
    ensures
        requested(left) != requested(right),
{
    match (left, right) {
        (PulseCommand::SetAppVolume(_, a), PulseCommand::SetAppVolume(_, b))
        | (PulseCommand::SetRecVolume(_, a), PulseCommand::SetRecVolume(_, b)) => {
            crate::volume::volume_is_nearest(a);
            crate::volume::volume_is_nearest(b);
            if a < b {
                crate::volume::volumes_tell_percentages_apart(a, b);
            } else if b < a {
                crate::volume::volumes_tell_percentages_apart(b, a);
            }
        },
        _ => {},
    }
}

} // verus!
