//! Decision logic of a live resynthesis pipeline: the capture/playback actor's
//! stream lifecycle, the resynthesis actor's command handling, how the
//! coordinator turns user intents into commands, and the real-time callback's
//! queue accounting.
pub mod audio;
pub mod capture;
pub mod coordinator;
pub mod error;
pub mod events;
pub mod playback;
pub mod resynth;

pub use audio::{AudioAction, AudioController, DeviceConfig, StreamState, BLOCK_SIZE};
pub use capture::CaptureStats;
pub use coordinator::Coordinator;
pub use error::Error;
pub use events::{AudioHandlerEvent, DeviceSetting, DictionaryHandlerEvent, GuiHandlerEvent};
pub use playback::enqueue_all;
pub use resynth::{ResynthAction, Resynthesizer, DEFAULT_DEPTH, DEFAULT_THRESHOLD};
