use vstd::prelude::*;
use crate::error::Error;
use crate::events::{AudioHandlerEvent, DeviceSetting};

verus! {

/// Number of samples in each block that the real-time callback handles.
pub const BLOCK_SIZE: usize = 64;

/// Lifecycle of the duplex stream.
#[derive(Debug, Clone, Copy, PartialEq, Eq, Structural)]
pub enum StreamState {
    /// No stream has been opened yet.
    Idle,
    /// A stream is open and its callback runs.
    Active,
    /// A stream is open and paused.
    Stopped,
    /// The stream has been released and the actor's loop has ended.
    Terminated,
}

/// The input and output devices of a duplex stream.
#[derive(Debug, Clone, Copy, PartialEq, Eq, Structural)]
pub struct DeviceConfig {
    pub input: u32,
    pub output: u32,
}

/// What the capture/playback actor's loop does to the driver after a command.
#[derive(Debug, Clone, Copy, PartialEq, Eq, Structural)]
pub enum AudioAction {
    /// Leave the driver alone.
    Nothing,
    /// Open a duplex stream on these devices with a fresh frame queue, hand
    /// the queue's consuming end to the resynthesis actor, and start it.
    Open(DeviceConfig),
    /// Release the paused stream, whose devices were changed while it ran,
    /// then open one on these devices as `Open` does; its fresh feed replaces
    /// the one revoked at the pause.
    Reopen(DeviceConfig),
    /// Start the paused stream again as it was opened, and give the
    /// resynthesis actor back the feed revoked at the pause.
    Resume,
    /// Pause the stream's callback and revoke the capture feed from the
    /// resynthesis actor; the stream and its devices stay open.
    Pause,
    /// Stop and release the stream, then leave the loop.
    Close,
    /// Leave the loop; no stream was ever opened.
    Exit,
}

/// The abstract state of the capture/playback actor.
pub struct AudioModel {
    /// Indices of the enumerated devices.
    pub devices: Seq<u32>,
    pub state: StreamState,
    /// Devices that the next stream will be opened on.
    pub config: DeviceConfig,
    /// Devices that the current stream was opened on.
    pub opened: DeviceConfig,
    /// Input device chosen while the stream was running, kept for the next stop.
    pub pending_input: Option<u32>,
    /// Output device chosen while the stream was running, kept for the next stop.
    pub pending_output: Option<u32>,
}

/// The device index that a setting names.
pub open spec fn setting_device(s: DeviceSetting) -> u32 {
    match s {
        DeviceSetting::SetInDevice(id) => id,
        DeviceSetting::SetOutDevice(id) => id,
    }
}

/// `cfg` with the device of `s` put in its place.
pub open spec fn configured(cfg: DeviceConfig, s: DeviceSetting) -> DeviceConfig {
    match s {
        DeviceSetting::SetInDevice(id) => DeviceConfig { input: id, ..cfg },
        DeviceSetting::SetOutDevice(id) => DeviceConfig { output: id, ..cfg },
    }
}

/// The devices for the next stream once the settings kept while running apply.
pub open spec fn pending_applied(m: AudioModel) -> DeviceConfig {
    DeviceConfig {
        input: match m.pending_input {
            Some(id) => id,
            None => m.config.input,
        },
        output: match m.pending_output {
            Some(id) => id,
            None => m.config.output,
        },
    }
}

/// While the stream runs, the next stream would be opened as the current one
/// was (changes wait in the pending slots); while no stream runs, changes
/// apply at once and nothing is pending.
pub open spec fn audio_wf(m: AudioModel) -> bool {
    &&& m.state == StreamState::Active ==> m.config == m.opened
    &&& (m.state == StreamState::Idle || m.state == StreamState::Stopped) ==> m.pending_input is None
        && m.pending_output is None
}

/// What command `c` yields in state `m`: the driver action, or the rejection
/// of a device that was not enumerated.
pub open spec fn audio_outcome(m: AudioModel, c: AudioHandlerEvent) -> Result<AudioAction, Error> {
    if m.state == StreamState::Terminated {
        Ok(AudioAction::Nothing)
    } else {
        match c {
            AudioHandlerEvent::Setting(s) => if m.devices.contains(setting_device(s)) {
                Ok(AudioAction::Nothing)
            } else {
                Err(Error::Device(setting_device(s)))
            },
            AudioHandlerEvent::Start => match m.state {
                StreamState::Idle => Ok(AudioAction::Open(m.config)),
                StreamState::Stopped => if m.config == m.opened {
                    Ok(AudioAction::Resume)
                } else {
                    Ok(AudioAction::Reopen(m.config))
                },
                _ => Ok(AudioAction::Nothing),
            },
            AudioHandlerEvent::Stop => if m.state == StreamState::Active {
                Ok(AudioAction::Pause)
            } else {
                Ok(AudioAction::Nothing)
            },
            AudioHandlerEvent::Quit => if m.state == StreamState::Idle {
                Ok(AudioAction::Exit)
            } else {
                Ok(AudioAction::Close)
            },
        }
    }
}

/// The state after command `c` in state `m`.
pub open spec fn audio_next(m: AudioModel, c: AudioHandlerEvent) -> AudioModel {
    if m.state == StreamState::Terminated {
        m
    } else {
        match c {
            AudioHandlerEvent::Setting(s) => if !m.devices.contains(setting_device(s)) {
                m
            } else if m.state == StreamState::Active {
                match s {
                    DeviceSetting::SetInDevice(id) => AudioModel { pending_input: Some(id), ..m },
                    DeviceSetting::SetOutDevice(id) => AudioModel { pending_output: Some(id), ..m },
                }
            } else {
                AudioModel { config: configured(m.config, s), ..m }
            },
            AudioHandlerEvent::Start => if m.state == StreamState::Active {
                m
            } else {
                AudioModel { state: StreamState::Active, opened: m.config, ..m }
            },
            AudioHandlerEvent::Stop => if m.state == StreamState::Active {
                AudioModel {
                    state: StreamState::Stopped,
                    config: pending_applied(m),
                    pending_input: None,
                    pending_output: None,
                    ..m
                }
            } else {
                m
            },
            AudioHandlerEvent::Quit => AudioModel { state: StreamState::Terminated, ..m },
        }
    }
}

/// The state after the commands `cs`, in order, starting in state `m`.
pub open spec fn audio_run(m: AudioModel, cs: Seq<AudioHandlerEvent>) -> AudioModel
    decreases cs.len(),
{
    if cs.len() == 0 {
        m
    } else {
        audio_next(audio_run(m, cs.drop_last()), cs.last())
    }
}

/// The decisions of the capture/playback actor: which devices the next stream
/// uses, and what each command does to the stream.
pub struct AudioController {
    devices: Vec<u32>,
    state: StreamState,
    config: DeviceConfig,
    opened: DeviceConfig,
    pending_input: Option<u32>,
    pending_output: Option<u32>,
}

impl View for AudioController {
    type V = AudioModel;

    closed spec fn view(&self) -> AudioModel {
        AudioModel {
            devices: self.devices@,
            state: self.state,
            config: self.config,
            opened: self.opened,
            pending_input: self.pending_input,
            pending_output: self.pending_output,
        }
    }
}

impl AudioController {
    #[verifier::type_invariant]
    spec fn inv(&self) -> bool {
        audio_wf(self@)
    }

    /// A controller with no stream, knowing the enumerated `devices`, that will
    /// open its first stream on `input` and `output`.
    pub fn new(devices: Vec<u32>, input: u32, output: u32) -> (r: Self)
        ensures
            r@.devices == devices@,
            r@.state == StreamState::Idle,
            r@.config == (DeviceConfig { input, output }),
            r@.opened == r@.config,
            r@.pending_input is None,
            r@.pending_output is None,
            audio_wf(r@),
    {
        let config = DeviceConfig { input, output };
        AudioController {
            devices,
            state: StreamState::Idle,
            config,
            opened: config,
            pending_input: None,
            pending_output: None,
        }
    }

    /// Whether `id` is one of the enumerated devices.
    pub fn knows_device(&self, id: u32) -> (r: bool)
        ensures
            r == self@.devices.contains(id),
    {
        let mut i: usize = 0;
        while i < self.devices.len()
            invariant
                i <= self.devices@.len(),
                forall|j: int| 0 <= j < i ==> self.devices@[j] != id,
            decreases self.devices@.len() - i,
        {
            if self.devices[i] == id {
                assert(self.devices@[i as int] == id);
                return true;
            }
            i = i + 1;
        }
        false
    }

    /// Position of device `id` in the enumerated device list, if it is there.
    pub fn device_position(&self, id: u32) -> (r: Option<usize>)
        ensures
            (match r {
                Some(i) => i < self@.devices.len() && self@.devices[i as int] == id,
                None => !self@.devices.contains(id),
            }),
    {
        let mut i: usize = 0;
        while i < self.devices.len()
            invariant
                i <= self.devices@.len(),
                forall|j: int| 0 <= j < i ==> self.devices@[j] != id,
            decreases self.devices@.len() - i,
        {
            if self.devices[i] == id {
                return Some(i);
            }
            i = i + 1;
        }
        None
    }

    /// Applies one command. A device setting names an enumerated device or is
    /// rejected; while the stream runs it is kept and applied at the next stop,
    /// so it reaches the driver only when the stream is started again. A stop
    /// pauses the stream and revokes the capture feed; the next start resumes
    /// the paused stream and hands the feed back, unless the devices changed,
    /// in which case it opens a stream on the new devices instead. Once
    /// `Quit` has been applied no later command changes anything.
    pub fn handle(&mut self, cmd: AudioHandlerEvent) -> (r: Result<AudioAction, Error>)
        ensures
            audio_wf(old(self)@),
            final(self)@ == audio_next(old(self)@, cmd),
            r == audio_outcome(old(self)@, cmd),
    {
        proof {
            use_type_invariant(&*self);
        }
        if self.state == StreamState::Terminated {
            return Ok(AudioAction::Nothing);
        }
        match cmd {
            AudioHandlerEvent::Setting(s) => {
                let id = match s {
                    DeviceSetting::SetInDevice(id) => id,
                    DeviceSetting::SetOutDevice(id) => id,
                };
                if !self.knows_device(id) {
                    return Err(Error::Device(id));
                }
                if self.state == StreamState::Active {
                    match s {
                        DeviceSetting::SetInDevice(id) => self.pending_input = Some(id),
                        DeviceSetting::SetOutDevice(id) => self.pending_output = Some(id),
                    }
                } else {
                    match s {
                        DeviceSetting::SetInDevice(id) => self.config = DeviceConfig { input: id, ..self.config },
                        DeviceSetting::SetOutDevice(id) => self.config = DeviceConfig { output: id, ..self.config },
                    }
                }
                Ok(AudioAction::Nothing)
            },
            AudioHandlerEvent::Start => {
                match self.state {
                    StreamState::Idle => {
                        self.opened = self.config;
                        self.state = StreamState::Active;
                        Ok(AudioAction::Open(self.config))
                    },
                    StreamState::Stopped => {
                        let unchanged = self.config == self.opened;
                        self.opened = self.config;
                        self.state = StreamState::Active;
                        if unchanged {
                            Ok(AudioAction::Resume)
                        } else {
                            Ok(AudioAction::Reopen(self.config))
                        }
                    },
                    _ => Ok(AudioAction::Nothing),
                }
            },
            AudioHandlerEvent::Stop => {
                if self.state == StreamState::Active {
                    let input = match self.pending_input {
                        Some(id) => id,
                        None => self.config.input,
                    };
                    let output = match self.pending_output {
                        Some(id) => id,
                        None => self.config.output,
                    };
                    self.pending_input = None;
                    self.pending_output = None;
                    self.state = StreamState::Stopped;
                    self.config = DeviceConfig { input, output };
                    Ok(AudioAction::Pause)
                } else {
                    Ok(AudioAction::Nothing)
                }
            },
            AudioHandlerEvent::Quit => {
                let was_idle = self.state == StreamState::Idle;
                self.state = StreamState::Terminated;
                if was_idle {
                    Ok(AudioAction::Exit)
                } else {
                    Ok(AudioAction::Close)
                }
            },
        }
    }

    /// Records that the driver failed on the stream: the actor is done, as
    /// after `Quit`, and its stream is no longer used.
    pub fn stream_failed(&mut self)
        ensures
            final(self)@ == (AudioModel { state: StreamState::Terminated, ..old(self)@ }),
    {
        self.state = StreamState::Terminated;
    }

    pub fn state(&self) -> (r: StreamState)
        ensures
            r == self@.state,
    {
        self.state
    }

    /// Devices that the next stream will be opened on.
    pub fn config(&self) -> (r: DeviceConfig)
        ensures
            r == self@.config,
    {
        self.config
    }
}

proof fn lemma_audio_run_append_all(m: AudioModel, a: Seq<AudioHandlerEvent>, b: Seq<AudioHandlerEvent>)
    ensures
        audio_run(m, a + b) == audio_run(audio_run(m, a), b),
    decreases b.len(),
{
    if b.len() == 0 {
        assert(a + b =~= a);
    } else {
        lemma_audio_run_append_all(m, a, b.drop_last());
        assert((a + b).drop_last() =~= a + b.drop_last());
        assert((a + b).last() == b.last());
    }
}

proof fn lemma_audio_terminated_stays(m: AudioModel, cs: Seq<AudioHandlerEvent>)
    requires
        m.state == StreamState::Terminated,
    ensures
        audio_run(m, cs) == m,
    decreases cs.len(),
{
    if cs.len() > 0 {
        lemma_audio_terminated_stays(m, cs.drop_last());
    }
}

/// Once `Quit` has been applied, no later command changes the actor's state or
/// reaches the driver.
pub proof fn lemma_audio_quit_is_terminal(m: AudioModel, before: Seq<AudioHandlerEvent>, after: Seq<AudioHandlerEvent>)
    ensures
        audio_run(m, before.push(AudioHandlerEvent::Quit)).state == StreamState::Terminated,
        audio_run(m, before.push(AudioHandlerEvent::Quit) + after) == audio_run(m, before.push(AudioHandlerEvent::Quit)),
        forall|i: int|
            0 <= i < after.len() ==> audio_outcome(
                #[trigger] audio_run(m, before.push(AudioHandlerEvent::Quit) + after.take(i)),
                after[i],
            ) == Ok::<AudioAction, Error>(AudioAction::Nothing),
{
    let q = before.push(AudioHandlerEvent::Quit);
    assert(q.drop_last() =~= before);
    let t = audio_run(m, q);
    lemma_audio_run_append_all(m, q, after);
    lemma_audio_terminated_stays(t, after);
    assert forall|i: int| 0 <= i < after.len() implies audio_outcome(
        #[trigger] audio_run(m, q + after.take(i)),
        after[i],
    ) == Ok::<AudioAction, Error>(AudioAction::Nothing) by {
        lemma_audio_run_append_all(m, q, after.take(i));
        lemma_audio_terminated_stays(t, after.take(i));
    }
}

/// A device chosen while the stream runs does not touch the running stream:
/// the stream keeps the devices it was opened on. After a stop, the next start
/// opens a stream on the chosen device.
pub proof fn lemma_device_switch_waits_for_restart(m: AudioModel, s: DeviceSetting)
    requires
        audio_wf(m),
        m.state == StreamState::Active,
        m.devices.contains(setting_device(s)),
        configured(pending_applied(m), s) != m.opened,
    ensures
        audio_outcome(m, AudioHandlerEvent::Setting(s)) == Ok::<AudioAction, Error>(AudioAction::Nothing),
        audio_next(m, AudioHandlerEvent::Setting(s)).state == StreamState::Active,
        audio_next(m, AudioHandlerEvent::Setting(s)).opened == m.opened,
        audio_outcome(audio_next(m, AudioHandlerEvent::Setting(s)), AudioHandlerEvent::Stop)
            == Ok::<AudioAction, Error>(AudioAction::Pause),
        audio_outcome(
            audio_run(m, seq![AudioHandlerEvent::Setting(s), AudioHandlerEvent::Stop]),
            AudioHandlerEvent::Start,
        ) == Ok::<AudioAction, Error>(AudioAction::Reopen(configured(pending_applied(m), s))),
        audio_run(
            m,
            seq![AudioHandlerEvent::Setting(s), AudioHandlerEvent::Stop, AudioHandlerEvent::Start],
        ).opened == configured(pending_applied(m), s),
        audio_run(
            m,
            seq![AudioHandlerEvent::Setting(s), AudioHandlerEvent::Stop, AudioHandlerEvent::Start],
        ).state == StreamState::Active,
{
    let c1 = AudioHandlerEvent::Setting(s);
    let one = seq![c1];
    let two = seq![c1, AudioHandlerEvent::Stop];
    let three = seq![c1, AudioHandlerEvent::Stop, AudioHandlerEvent::Start];
    assert(one.drop_last() =~= Seq::<AudioHandlerEvent>::empty());
    assert(two.drop_last() =~= one);
    assert(three.drop_last() =~= two);
    let s1 = audio_next(m, c1);
    let s2 = audio_next(s1, AudioHandlerEvent::Stop);
    assert(audio_run(m, Seq::<AudioHandlerEvent>::empty()) == m);
    assert(audio_run(m, one) == s1);
    assert(audio_run(m, two) == s2);
    assert(audio_run(m, three) == audio_next(s2, AudioHandlerEvent::Start));
    assert(s2.config == configured(pending_applied(m), s));
}

/// A stream stopped and started again with no device changed in between is
/// paused and then resumed as it was opened, not released and reopened.
pub proof fn lemma_restart_resumes(m: AudioModel)
    requires
        audio_wf(m),
        m.state == StreamState::Active,
        m.pending_input is None,
        m.pending_output is None,
    ensures
        audio_outcome(m, AudioHandlerEvent::Stop) == Ok::<AudioAction, Error>(AudioAction::Pause),
        audio_next(m, AudioHandlerEvent::Stop).state == StreamState::Stopped,
        audio_outcome(audio_next(m, AudioHandlerEvent::Stop), AudioHandlerEvent::Start)
            == Ok::<AudioAction, Error>(AudioAction::Resume),
        audio_next(audio_next(m, AudioHandlerEvent::Stop), AudioHandlerEvent::Start).opened == m.opened,
        audio_next(audio_next(m, AudioHandlerEvent::Stop), AudioHandlerEvent::Start).state == StreamState::Active,
{
    assert(pending_applied(m) == m.config);
}

} // verus!
