use vstd::prelude::*;

verus! {

/// A change of the devices that the next stream will be opened on.
#[derive(Debug, Clone, Copy, PartialEq, Eq, Structural)]
pub enum DeviceSetting {
    SetInDevice(u32),
    SetOutDevice(u32),
}

/// A command to the capture/playback actor.
#[derive(Debug, Clone, Copy, PartialEq, Eq, Structural)]
pub enum AudioHandlerEvent {
    Setting(DeviceSetting),
    Start,
    Stop,
    Quit,
}

/// A command to the resynthesis actor. `F` is the consuming end of the frame
/// queue that the capture/playback actor hands over when it opens a stream.
pub enum DictionaryHandlerEvent<F> {
    Refresh,
    Play,
    SetThreshold(usize),
    SetDepth(usize),
    /// `Some`: the feed of a newly opened stream, replacing any other.
    /// `None`: the stream was paused; the feed is revoked and kept aside.
    InputBuffer(Option<F>),
    /// The paused stream runs again: the feed kept aside at the pause is
    /// drained again.
    RestoreInput,
    Quit,
}

/// Status that the capture/playback actor reports to the coordinator.
pub enum GuiHandlerEvent {
    /// Position of the selected input device in the device list.
    InDevice(usize),
    /// Position of the selected output device in the device list.
    OutDevice(usize),
    /// The enumerated devices: index and display name, in enumeration order.
    Devices(Vec<(u32, String)>),
    /// The audio driver failed on the stream; the pipeline has to stop.
    StreamFailed,
}

} // verus!
