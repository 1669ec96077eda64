use app_volume::presentation::{
    app_record_stream, app_stream, describe_playback, describe_recording, hides_playback,
    hides_recording, sink_info, source_info, stream_icon, stream_icon_source, stream_name,
};
use app_volume::proplist::Proplist;
use app_volume::server::{ServerSink, ServerSource, ServerStream};

fn properties(entries: &[(&str, &str)]) -> Proplist {
    let mut list = Proplist::new();
    for (key, value) in entries {
        list.set_str(key.to_string(), value.to_string());
    }
    list
}

fn stream(name: Option<&str>, entries: &[(&str, &str)]) -> ServerStream {
    ServerStream {
        index: 17,
        name: name.map(str::to_string),
        proplist: properties(entries),
        volume: 65536,
        mute: false,
        device: 4,
    }
}

#[test]
fn event_sounds_are_hidden() {
    let list = properties(&[("media.role", "event"), ("application.name", "Shell")]);
    assert!(hides_playback(&list));
    assert!(hides_recording(&list));
    assert!(!hides_playback(&properties(&[("media.role", "music")])));
    assert!(!hides_recording(&properties(&[("media.role", "Event")])));
}

#[test]
fn command_line_players_are_hidden() {
    for player in ["pw-play", "paplay", "canberra-gtk-play", "aplay"] {
        let list = properties(&[("application.process.binary", player)]);
        assert!(hides_playback(&list), "{}", player);
        assert!(!hides_recording(&list), "{}", player);
    }
    assert!(!hides_playback(&properties(&[("application.process.binary", "aplayer")])));
}

#[test]
fn command_line_recorders_and_mixers_are_hidden() {
    for recorder in ["pw-record", "parec", "pavucontrol", "cosmic-applet-audio"] {
        let list = properties(&[("application.process.binary", recorder)]);
        assert!(hides_recording(&list), "{}", recorder);
        assert!(!hides_playback(&list), "{}", recorder);
    }
    assert!(!hides_recording(&properties(&[("application.process.binary", "obs")])));
}

#[test]
fn the_mixer_is_hidden_by_its_id_on_the_playback_side_only() {
    let list = properties(&[("application.id", "org.PulseAudio.pavucontrol")]);
    assert!(hides_playback(&list));
    assert!(!hides_recording(&list));
    assert!(!hides_playback(&properties(&[("application.id", "org.mozilla.firefox")])));
}

#[test]
fn streams_without_properties_are_shown() {
    assert!(!hides_playback(&Proplist::new()));
    assert!(!hides_recording(&Proplist::new()));
}

#[test]
fn names_come_in_order_of_preference() {
    let all = [
        ("application.name", "Firefox"),
        ("application.process.binary", "firefox-bin"),
        ("media.name", "AudioStream"),
    ];
    assert_eq!(stream_name(&stream(Some("own"), &all)), "Firefox");
    assert_eq!(stream_name(&stream(Some("own"), &all[1..])), "firefox-bin");
    assert_eq!(stream_name(&stream(Some("own"), &all[2..])), "AudioStream");
    assert_eq!(stream_name(&stream(Some("own"), &[])), "own");
    assert_eq!(stream_name(&stream(None, &[])), "Stream 17");
}

#[test]
fn an_empty_name_is_a_name() {
    assert_eq!(stream_name(&stream(Some("own"), &[("application.name", "")])), "");
}

#[test]
fn numbered_names_tell_streams_apart() {
    let mut first = stream(None, &[]);
    let mut second = stream(None, &[]);
    first.index = 1;
    second.index = 11;
    assert_eq!(stream_name(&first), "Stream 1");
    assert_eq!(stream_name(&second), "Stream 11");
}

#[test]
fn icons_are_in_lower_case() {
    let both = properties(&[
        ("application.icon_name", "Spotify-Client"),
        ("application.process.binary", "spotify"),
    ]);
    assert_eq!(stream_icon_source(&both), Some("Spotify-Client".to_string()));
    assert_eq!(stream_icon(&both), Some("spotify-client".to_string()));
    let binary = properties(&[("application.process.binary", "VLC")]);
    assert_eq!(stream_icon_source(&binary), Some("VLC".to_string()));
    assert_eq!(stream_icon(&binary), Some("vlc".to_string()));
    assert_eq!(stream_icon(&properties(&[("application.icon_name", "ÄÖ")])), Some("äö".to_string()));
    assert_eq!(stream_icon(&Proplist::new()), None);
}

#[test]
fn playback_streams_are_listed() {
    let mut source = stream(None, &[("application.name", "Zoom"), ("application.process.binary", "ZOOM")]);
    source.volume = 32768;
    source.mute = true;
    let app = app_stream(&source).unwrap();
    assert_eq!(app.index, 17);
    assert_eq!(app.app_name, "Zoom");
    assert_eq!(app.icon_name, Some("zoom".to_string()));
    assert_eq!(app.volume_percent, 50);
    assert!(app.muted);
    assert_eq!(app.sink_index, 4);
    assert!(app_stream(&stream(None, &[("media.role", "event")])).is_none());
}

#[test]
fn recording_streams_are_listed() {
    let mut source = stream(Some("mic"), &[]);
    source.volume = 200_000;
    let app = app_record_stream(&source).unwrap();
    assert_eq!(app.index, 17);
    assert_eq!(app.app_name, "mic");
    assert_eq!(app.icon_name, None);
    assert_eq!(app.volume_percent, 150);
    assert!(!app.muted);
    assert_eq!(app.source_index, 4);
    assert!(app_record_stream(&stream(None, &[("application.process.binary", "parec")])).is_none());
}

#[test]
fn descriptions_take_the_icon_as_given() {
    let source = stream(None, &[("application.process.binary", "mpv")]);
    assert_eq!(describe_playback(&source, Some("Given".to_string())).icon_name, Some("Given".to_string()));
    assert_eq!(describe_recording(&source, None).icon_name, None);
}

#[test]
fn sinks_fall_back_to_their_names() {
    let full = sink_info(ServerSink {
        index: 1,
        name: Some("alsa.hdmi".to_string()),
        description: Some("HDMI".to_string()),
        volume: 0,
        mute: false,
    });
    assert_eq!((full.index, full.name.as_str(), full.description.as_str()), (1, "alsa.hdmi", "HDMI"));
    let named = sink_info(ServerSink {
        index: 2,
        name: Some("alsa.usb".to_string()),
        description: None,
        volume: 0,
        mute: false,
    });
    assert_eq!((named.name.as_str(), named.description.as_str()), ("alsa.usb", "alsa.usb"));
    let bare = sink_info(ServerSink { index: 3, name: None, description: None, volume: 0, mute: false });
    assert_eq!((bare.name.as_str(), bare.description.as_str()), ("", ""));
}

#[test]
fn monitor_sources_are_left_out() {
    let source = |monitor_of_sink| ServerSource {
        index: 5,
        name: Some("mic".to_string()),
        description: None,
        monitor_of_sink,
    };
    let info = source_info(source(None)).unwrap();
    assert_eq!((info.index, info.name.as_str(), info.description.as_str()), (5, "mic", "mic"));
    assert!(source_info(source(Some(0))).is_none());
}
