//! The decision core of an audio playback engine, verified.
//!
//! Everything the engine decides is here as plain, sequential code with a
//! contract: the shared playback state and its seek handshake, the decoder
//! worker, the watchdog, the output callback, the visualization tap, and the
//! bookkeeping around decoding, resampling, duration scanning and waveform
//! extraction. What touches files, devices, threads and clocks sits outside,
//! performs the effects this library asks for and reports back what happened.
//!
//! Samples travel as the bit patterns of 32-bit floats (`u32`) and times as
//! whole microseconds, so every value here is an integer.

pub mod announcing;
pub mod channel;
pub mod command;
pub mod config;
pub mod control;
pub mod decoder;
pub mod effect;
pub mod error;
pub mod event;
pub mod feed;
pub mod invariants;
pub mod laws;
pub mod lifecycle;
pub mod mapping;
pub mod output;
pub mod replaygain;
pub mod resampler;
pub mod ring;
pub mod scan;
pub mod seeking;
pub mod stage;
pub mod state;
pub mod tap;
pub mod timing;
pub mod tracks;
pub mod watchdog;
pub mod waveform;
pub mod worker;

pub use crate::config::VoxConfig;
pub use crate::error::VoxError;
pub use crate::event::{EndReason, RebindReason, StartReason, VoxEvent, VoxEvents};
pub use crate::replaygain::ReplayGainMode;
pub use crate::state::SharedState;
pub use crate::tap::TapHandle;
pub use crate::waveform::{BinMetric, Waveform};
