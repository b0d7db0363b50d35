//! What the decoder worker knows, what it waits for, and what it is told.

use crate::command::{prefill_for, Batch, Prefill, VoxCommand};
use crate::decoder::{Landing, VoxDecoder};
use crate::error::VoxError;
use crate::replaygain::ReplayGainMode;
use crate::resampler::VoxResampler;
use vstd::prelude::*;

verus! {

/// How often the idle worker wakes to adopt pending rebinds, in milliseconds.
pub const IDLE_POLL: u64 = 100;

/// How much audio is put into the ring before playback goes on after a seek, in
/// milliseconds.
pub const SEEK_PREFILL_MS: u64 = 40;

/// How much a lossy codec decodes for nothing after a seek, in milliseconds.
pub const SEEK_POST_SKIP_MS: u64 = 20;

/// How long the callback is given to drain the ring, in milliseconds.
pub const SEEK_DRAIN_MS: u64 = 100;

/// An open file: the engine's record of it, and its reader and codec.
pub struct Loaded<D> {
    pub decoder: VoxDecoder,
    pub source: D,
}

/// A track primed to follow the current one.
pub struct QueuedSource<D, R> {
    pub track: Loaded<D>,
    pub resampler: Option<VoxResampler<R>>,
    pub input_channels: usize,
}

/// A file opened on the worker's behalf, with the attempt to make a resampler
/// from its rate to the output's.
pub struct Opened<D, R> {
    pub track: Loaded<D>,
    pub resampler: Result<Option<VoxResampler<R>>, VoxError>,
}

/// What a file is opened for.
#[derive(Clone, Copy, Debug, PartialEq, Eq, Structural)]
pub enum Purpose {
    Play(Prefill),
    Next,
}

/// What follows once the ring is filled.
#[derive(Clone, Copy, Debug, PartialEq, Eq, Structural)]
pub enum Filled {
    /// A track has started.
    TrackStart,
    /// A seek has completed.
    Seek,
}

/// What decoded audio is for.
#[derive(Clone, Copy, Debug, PartialEq, Eq, Structural)]
pub enum Fill {
    /// To be written to the ring as the ring empties.
    Playback,
    /// To be written as far as it fits, `done` output samples being written
    /// already.
    Ahead { then_do: Filled, done: usize },
}

/// What follows once the ring is drained.
#[derive(Clone, Copy, Debug, PartialEq, Eq, Structural)]
pub enum Drained {
    /// The seek went past the end of the track.
    PastEnd,
    /// The ring is filled from the new position.
    Fill(Filled),
}

/// What follows once the resampler is flushed.
pub enum Flushed {
    /// Nothing follows the track at this path.
    End(Option<String>),
    /// The primed track follows.
    Handoff,
}

/// What the worker waits for.
pub enum Stage {
    /// A command, for at most [`IDLE_POLL`].
    Idle,
    /// The newest output binding, if one has come.
    Rebind,
    /// Resamplers for the new output format: one for the primed track and one
    /// for the current track, as far as there are such tracks.
    Rebuild { resume_at: i64 },
    /// The next command, if one waits.
    Poll,
    /// The file at `path` to be opened.
    Open { path: String, purpose: Purpose },
    /// The ring to be drained of stale audio.
    Drain(Drained),
    /// The current track's next packet.
    Decode(Fill),
    /// These samples to be written to the ring.
    Deliver { samples: Vec<u32>, fill: Fill },
    /// The current track to seek to this position, in microseconds.
    Seek(u64),
    /// Up to `frames` frames of the current track to be decoded for nothing, it
    /// having landed there.
    Skip { frames: u64, landing: Landing },
    /// The rest of the pending input to be converted and written.
    Flush(Flushed),
    /// A command, a binding, or a short time to pass.
    Park,
    /// Nothing more.
    Halted,
}

/// The answer to a [`Stage`].
pub enum Reply<D, R> {
    /// To `Idle` and `Poll`: a command.
    Command(VoxCommand),
    /// To `Idle` and `Poll`: no command.
    Quiet,
    /// To `Idle` and `Poll`: nobody is left to give commands.
    Disconnected,
    /// To `Rebind`: rate and channels of the newest binding.
    Bound(Option<(u32, usize)>),
    /// To `Rebuild`.
    Rebuilt {
        next: Result<Option<VoxResampler<R>>, VoxError>,
        current: Result<Option<VoxResampler<R>>, VoxError>,
    },
    /// To `Open`.
    Opened(Result<Opened<D, R>, VoxError>),
    /// To `Drain`.
    Drained,
    /// To `Decode`: samples, or the end of the track.
    Packet(Result<Option<Vec<u32>>, VoxError>),
    /// To `Deliver`: how many output samples were written.
    Delivered(Result<usize, VoxError>),
    /// To `Seek`.
    Landed(Result<Landing, VoxError>),
    /// To `Skip`: how many frames were skipped.
    Skipped(Result<u64, VoxError>),
    /// To `Flush`.
    Flushed(Result<(), VoxError>),
    /// To `Park`.
    Woken,
}

/// Whether a reply is an answer to what the worker waits for.
pub open spec fn answers<D, R>(stage: Stage, reply: Reply<D, R>) -> bool {
    match stage {
        Stage::Idle => reply is Command || reply is Quiet || reply is Disconnected,
        Stage::Rebind => reply is Bound,
        Stage::Rebuild { .. } => reply is Rebuilt,
        Stage::Poll => reply is Command || reply is Quiet || reply is Disconnected,
        Stage::Open { .. } => reply is Opened,
        Stage::Drain(_) => reply is Drained,
        Stage::Decode(_) => reply is Packet,
        Stage::Deliver { .. } => reply is Delivered,
        Stage::Seek(_) => reply is Landed,
        Stage::Skip { .. } => reply is Skipped,
        Stage::Flush(_) => reply is Flushed,
        Stage::Park => reply is Woken,
        Stage::Halted => false,
    }
}

/// Where the worker goes once nothing is due.
#[derive(Clone, Copy, Debug, PartialEq, Eq, Structural)]
pub enum Goal {
    /// Back to the start of a round.
    Round,
    /// On to the next command.
    Poll,
    /// On to the audio.
    Settle,
}

/// What is still to be done, in the order of the fields.
pub struct Due {
    pub play: Option<String>,
    pub prefill: Prefill,
    /// A track to prime in the next round.
    pub defer: Option<String>,
    pub seek: Option<i64>,
    pub next: Option<String>,
    pub command: Option<VoxCommand>,
    pub goal: Goal,
}

impl Due {
    /// Nothing is due on the way to `goal`.
    pub open spec fn nothing(goal: Goal) -> Due {
        Due {
            play: None,
            prefill: Prefill::Now,
            defer: None,
            seek: None,
            next: None,
            command: None,
            goal,
        }
    }

    /// A burst of commands was cut short by one that cannot be merged.
    pub open spec fn interrupted(batch: Batch, command: VoxCommand) -> Due {
        Due {
            play: batch.play,
            prefill: prefill_for(batch.seek),
            defer: None,
            seek: batch.seek,
            next: batch.next,
            command: Some(command),
            goal: Goal::Poll,
        }
    }

    /// A burst of commands is over. What is to follow a track that is only about
    /// to start waits for the next round.
    pub open spec fn finished(batch: Batch) -> Due {
        Due {
            play: batch.play,
            prefill: prefill_for(batch.seek),
            defer: if batch.play is Some {
                batch.next
            } else {
                None
            },
            seek: batch.seek,
            next: if batch.play is Some {
                None
            } else {
                batch.next
            },
            command: None,
            goal: Goal::Settle,
        }
    }
}

/// What the worker knows.
pub struct Deck<D, R> {
    pub output_rate: u32,
    pub output_channels: usize,
    pub current: Option<Loaded<D>>,
    pub next: Option<QueuedSource<D, R>>,
    pub resampler: Option<VoxResampler<R>>,
    pub input_channels: usize,
    pub deferred_next: Option<String>,
    pub rg_mode: ReplayGainMode,
    /// Set by any seek on the current track. A seek invalidates the count of
    /// frames emitted, so end-of-track duration reconciliation is skipped.
    pub seeked: bool,
    /// The burst of commands being read.
    pub batch: Batch,
    pub due: Due,
    pub stage: Stage,
}

} // verus!
