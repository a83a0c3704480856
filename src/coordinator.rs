use vstd::prelude::*;
use crate::events::{AudioHandlerEvent, DeviceSetting, DictionaryHandlerEvent, GuiHandlerEvent};

verus! {

/// `c` is one of the ASCII digits `0` to `9`.
pub open spec fn is_decimal_digit(c: char) -> bool {
    '0' <= c && c <= '9'
}

/// The number that the decimal digits `ds` write.
pub open spec fn digits_value(ds: Seq<char>) -> int
    decreases ds.len(),
{
    if ds.len() == 0 {
        0
    } else {
        digits_value(ds.drop_last()) * 10 + (ds.last() as int - '0' as int)
    }
}

/// `s` without its leading `+`, if it has one.
pub open spec fn unsigned_part(s: Seq<char>) -> Seq<char> {
    if s.len() > 0 && s[0] == '+' {
        s.drop_first()
    } else {
        s
    }
}

/// The count that text `s` writes in decimal: an optional `+` and then one or
/// more digits, with a value that fits in `usize`. `None` for any other text.
pub open spec fn decimal_count(s: Seq<char>) -> Option<usize> {
    let ds = unsigned_part(s);
    if ds.len() > 0 && (forall|i: int| 0 <= i < ds.len() ==> is_decimal_digit(#[trigger] ds[i]))
        && digits_value(ds) <= usize::MAX {
        Some(digits_value(ds) as usize)
    } else {
        None
    }
}

/// Relies on `str::parse::<usize>`, that is `usize::from_str_radix(s, 10)`:
/// it accepts an optional `+` followed by only the digits `0` to `9`, and
/// fails on any other character, on no digit at all, and on a value that
/// does not fit.
#[verifier::external_body]
fn parse_count(text: &str) -> (r: Option<usize>)
    ensures
        r == decimal_count(text@),
{
    text.parse::<usize>().ok()
}

/// The abstract state of the coordinator: the text boxes, and its view of the
/// devices as the capture/playback actor reported them.
pub struct CoordinatorModel {
    pub threshold_text: Seq<char>,
    pub depth_text: Seq<char>,
    pub devices: Option<Seq<(u32, String)>>,
    pub in_device: Option<usize>,
    pub out_device: Option<usize>,
    pub stream_failed: bool,
}

/// The coordinator's state after status event `e`.
pub open spec fn status_next(m: CoordinatorModel, e: GuiHandlerEvent) -> CoordinatorModel {
    match e {
        GuiHandlerEvent::InDevice(i) => CoordinatorModel { in_device: Some(i), ..m },
        GuiHandlerEvent::OutDevice(i) => CoordinatorModel { out_device: Some(i), ..m },
        GuiHandlerEvent::Devices(d) => CoordinatorModel { devices: Some(d@), ..m },
        GuiHandlerEvent::StreamFailed => CoordinatorModel { stream_failed: true, ..m },
    }
}

/// The device at `position` of the reported device list, if there is one.
pub open spec fn device_at(m: CoordinatorModel, position: usize) -> Option<u32> {
    match m.devices {
        Some(d) => if position < d.len() {
            Some(d[position as int].0)
        } else {
            None
        },
        None => None,
    }
}

/// The control-facing actor: turns user intents into commands for the other
/// two actors, and keeps a view of the devices that the capture/playback actor
/// reports.
pub struct Coordinator {
    threshold_text: String,
    depth_text: String,
    devices: Option<Vec<(u32, String)>>,
    in_device: Option<usize>,
    out_device: Option<usize>,
    stream_failed: bool,
}

impl View for Coordinator {
    type V = CoordinatorModel;

    closed spec fn view(&self) -> CoordinatorModel {
        CoordinatorModel {
            threshold_text: self.threshold_text@,
            depth_text: self.depth_text@,
            devices: match self.devices {
                Some(d) => Some(d@),
                None => None,
            },
            in_device: self.in_device,
            out_device: self.out_device,
            stream_failed: self.stream_failed,
        }
    }
}

impl Coordinator {
    /// Empty text boxes, no device reported yet.
    pub fn new() -> (r: Self)
        ensures
            r@.threshold_text.len() == 0,
            r@.depth_text.len() == 0,
            r@.devices is None,
            r@.in_device is None,
            r@.out_device is None,
            !r@.stream_failed,
    {
        Coordinator {
            threshold_text: String::new(),
            depth_text: String::new(),
            devices: None,
            in_device: None,
            out_device: None,
            stream_failed: false,
        }
    }

    /// Takes in a status event from the capture/playback actor.
    pub fn apply_status(&mut self, event: GuiHandlerEvent)
        ensures
            final(self)@ == status_next(old(self)@, event),
    {
        match event {
            GuiHandlerEvent::InDevice(i) => self.in_device = Some(i),
            GuiHandlerEvent::OutDevice(i) => self.out_device = Some(i),
            GuiHandlerEvent::Devices(d) => self.devices = Some(d),
            GuiHandlerEvent::StreamFailed => self.stream_failed = true,
        }
    }

    /// Asks the resynthesis actor to rebuild its dictionary and synthesis.
    pub fn request_refresh<F>(&self) -> (r: DictionaryHandlerEvent<F>)
        ensures
            r is Refresh,
    {
        DictionaryHandlerEvent::Refresh
    }

    /// Asks the resynthesis actor to play its last synthesis.
    pub fn request_play<F>(&self) -> (r: DictionaryHandlerEvent<F>)
        ensures
            r is Play,
    {
        DictionaryHandlerEvent::Play
    }

    pub fn set_threshold<F>(&self, n: usize) -> (r: DictionaryHandlerEvent<F>)
        ensures
            r == DictionaryHandlerEvent::<F>::SetThreshold(n),
    {
        DictionaryHandlerEvent::SetThreshold(n)
    }

    pub fn set_depth<F>(&self, n: usize) -> (r: DictionaryHandlerEvent<F>)
        ensures
            r == DictionaryHandlerEvent::<F>::SetDepth(n),
    {
        DictionaryHandlerEvent::SetDepth(n)
    }

    /// Asks the capture/playback actor to start the stream, or to open it again after a stop.
    pub fn start_capture(&self) -> (r: AudioHandlerEvent)
        ensures
            r == AudioHandlerEvent::Start,
    {
        AudioHandlerEvent::Start
    }

    /// Asks the capture/playback actor to pause the stream.
    pub fn stop_capture(&self) -> (r: AudioHandlerEvent)
        ensures
            r == AudioHandlerEvent::Stop,
    {
        AudioHandlerEvent::Stop
    }

    /// The `Quit` commands for both actors; the caller delivers both, and a
    /// closed channel counts as an actor that has already quit.
    pub fn quit_all<F>(&self) -> (r: (AudioHandlerEvent, DictionaryHandlerEvent<F>))
        ensures
            r.0 == AudioHandlerEvent::Quit,
            r.1 is Quit,
    {
        (AudioHandlerEvent::Quit, DictionaryHandlerEvent::Quit)
    }

    /// The user picked the input device at `position` of the device list: it
    /// becomes the selection and the capture/playback actor is told. `None`,
    /// with nothing changed, when no device stands there.
    pub fn select_input_device(&mut self, position: usize) -> (r: Option<AudioHandlerEvent>)
        ensures
            r == (match device_at(old(self)@, position) {
                Some(id) => Some(AudioHandlerEvent::Setting(DeviceSetting::SetInDevice(id))),
                None => None,
            }),
            final(self)@ == (if r is Some {
                CoordinatorModel { in_device: Some(position), ..old(self)@ }
            } else {
                old(self)@
            }),
    {
        match self.device_id(position) {
            Some(id) => {
                self.in_device = Some(position);
                Some(AudioHandlerEvent::Setting(DeviceSetting::SetInDevice(id)))
            },
            None => None,
        }
    }

    /// The user picked the output device at `position` of the device list: it
    /// becomes the selection and the capture/playback actor is told. `None`,
    /// with nothing changed, when no device stands there.
    pub fn select_output_device(&mut self, position: usize) -> (r: Option<AudioHandlerEvent>)
        ensures
            r == (match device_at(old(self)@, position) {
                Some(id) => Some(AudioHandlerEvent::Setting(DeviceSetting::SetOutDevice(id))),
                None => None,
            }),
            final(self)@ == (if r is Some {
                CoordinatorModel { out_device: Some(position), ..old(self)@ }
            } else {
                old(self)@
            }),
    {
        match self.device_id(position) {
            Some(id) => {
                self.out_device = Some(position);
                Some(AudioHandlerEvent::Setting(DeviceSetting::SetOutDevice(id)))
            },
            None => None,
        }
    }

    /// The device index at `position` of the reported device list.
    pub fn device_id(&self, position: usize) -> (r: Option<u32>)
        ensures
            r == device_at(self@, position),
    {
        match &self.devices {
            Some(d) => if position < d.len() {
                Some(d[position].0)
            } else {
                None
            },
            None => None,
        }
    }

    /// The threshold text box now reads `text`.
    pub fn edit_threshold_text(&mut self, text: String)
        ensures
            final(self)@ == (CoordinatorModel { threshold_text: text@, ..old(self)@ }),
    {
        self.threshold_text = text;
    }

    /// The depth text box now reads `text`.
    pub fn edit_depth_text(&mut self, text: String)
        ensures
            final(self)@ == (CoordinatorModel { depth_text: text@, ..old(self)@ }),
    {
        self.depth_text = text;
    }

    /// The threshold text box was confirmed: the new threshold, when the text
    /// writes a count.
    pub fn submit_threshold<F>(&self) -> (r: Option<DictionaryHandlerEvent<F>>)
        ensures
            r == (match decimal_count(self@.threshold_text) {
                Some(n) => Some(DictionaryHandlerEvent::<F>::SetThreshold(n)),
                None => None,
            }),
    {
        match parse_count(self.threshold_text.as_str()) {
            Some(n) => Some(DictionaryHandlerEvent::SetThreshold(n)),
            None => None,
        }
    }

    /// The depth text box was confirmed: the new depth, when the text writes
    /// a count.
    pub fn submit_depth<F>(&self) -> (r: Option<DictionaryHandlerEvent<F>>)
        ensures
            r == (match decimal_count(self@.depth_text) {
                Some(n) => Some(DictionaryHandlerEvent::<F>::SetDepth(n)),
                None => None,
            }),
    {
        match parse_count(self.depth_text.as_str()) {
            Some(n) => Some(DictionaryHandlerEvent::SetDepth(n)),
            None => None,
        }
    }

    pub fn threshold_text(&self) -> (r: &str)
        ensures
            r@ == self@.threshold_text,
    {
        self.threshold_text.as_str()
    }

    pub fn depth_text(&self) -> (r: &str)
        ensures
            r@ == self@.depth_text,
    {
        self.depth_text.as_str()
    }

    /// The reported devices, if any.
    pub fn devices(&self) -> (r: Option<&Vec<(u32, String)>>)
        ensures
            (match r {
                Some(d) => self@.devices == Some(d@),
                None => self@.devices is None,
            }),
    {
        match &self.devices {
            Some(d) => Some(d),
            None => None,
        }
    }

    pub fn in_device(&self) -> (r: Option<usize>)
        ensures
            r == self@.in_device,
    {
        self.in_device
    }

    pub fn out_device(&self) -> (r: Option<usize>)
        ensures
            r == self@.out_device,
    {
        self.out_device
    }

    /// Whether the capture/playback actor reported a failed stream.
    pub fn stream_failed(&self) -> (r: bool)
        ensures
            r == self@.stream_failed,
    {
        self.stream_failed
    }
}

} // verus!
