//! What the sound server reports about streams, devices and changes.
use crate::proplist::Proplist;
use vstd::prelude::*;

verus! {

/// A playback stream (sink input) or recording stream (source output) as the server reports it.
/// `volume` is the average raw volume of its channels; `device` is the sink that a playback
/// stream plays to, or the source that a recording stream records from.
#[derive(Debug)]
pub struct ServerStream {
    pub index: u32,
    pub name: Option<String>,
    pub proplist: Proplist,
    pub volume: u32,
    pub mute: bool,
    pub device: u32,
}

/// An output device as the server reports it. `volume` is the average raw volume of its channels.
#[derive(Debug)]
pub struct ServerSink {
    pub index: u32,
    pub name: Option<String>,
    pub description: Option<String>,
    pub volume: u32,
    pub mute: bool,
}

/// An input device as the server reports it. A source that only repeats what a sink plays names
/// that sink in `monitor_of_sink`.
#[derive(Debug)]
pub struct ServerSource {
    pub index: u32,
    pub name: Option<String>,
    pub description: Option<String>,
    pub monitor_of_sink: Option<u32>,
}

/// One answer to a list query.
#[derive(Debug)]
pub enum ListResult<T> {
    Item(T),
    End,
    Error,
}

/// The part of the server that a change event is about.
#[derive(Debug, Clone, Copy, PartialEq, Eq, Structural)]
pub enum Facility {
    Sink,
    Source,
    SinkInput,
    SourceOutput,
    Module,
    Client,
    SampleCache,
    Server,
    Card,
}

/// Anything that the server can report while the monitor runs.
#[derive(Debug)]
pub enum Report {
    /// Something changed in a part of the server, if it can be told which.
    Change(Option<Facility>),
    /// The name of the default sink, if the server gives one.
    Server(Option<String>),
    /// An answer about the default sink.
    DefaultSink(ListResult<ServerSink>),
    /// An answer about playback streams.
    SinkInput(ListResult<ServerStream>),
    /// An answer about output devices.
    Sink(ListResult<ServerSink>),
    /// An answer about input devices.
    Source(ListResult<ServerSource>),
    /// An answer about recording streams.
    SourceOutput(ListResult<ServerStream>),
}

/// What a reported stream says.
pub struct ServerStreamView {
    pub index: u32,
    pub name: Option<Seq<char>>,
    pub proplist: Map<Seq<char>, Seq<char>>,
    pub volume: u32,
    pub mute: bool,
    pub device: u32,
}

impl View for ServerStream {
    type V = ServerStreamView;

    open spec fn view(&self) -> ServerStreamView {
        ServerStreamView {
            index: self.index,
            name: crate::streams::optional_text(self.name),
            proplist: self.proplist@,
            volume: self.volume,
            mute: self.mute,
            device: self.device,
        }
    }
}

} // verus!
