//! What the engine knows and decides about a decoded file: its audio format and
//! length, the error budget of decoding, and where a seek lands.

use crate::error::VoxError;
use crate::replaygain::ReplayGainInfo;
use crate::timing::{at_least_one, clip, frames_micros, frames_to_micros};
use vstd::prelude::*;
use vstd::string::StringExecFns;

verus! {

/// Packets looked at to find the format of a stream without one in its header.
pub const MAX_PROBE_PACKETS: usize = 10;

/// Allowed maximum number of consecutive transient IO errors before giving up.
/// A successful read resets the count.
pub const MAX_IO_RETRIES: u32 = 3;

/// The end of the range of times, in microseconds: it stands for every time that
/// cannot be counted.
pub const LAST_TIME: u64 = 0x7fff_ffff_ffff_ffff;

/// Post-seek pre-roll of Opus, which needs about this many milliseconds to
/// reconverge (RFC 7845 section 4.5).
pub const OPUS_SEEK_PREROLL_MS: u64 = 80;

/// Post-seek pre-roll of Vorbis, which has a long MDCT window.
pub const VORBIS_SEEK_PREROLL_MS: u64 = 80;

/// The codecs that seeking treats specially.
#[derive(Clone, Copy, Debug, PartialEq, Eq, Structural)]
pub enum Codec {
    Opus,
    Vorbis,
    Mp3,
    Aac,
    /// Any codec that needs no warm-up after a seek.
    Other,
}

/// What the engine needs to know about the audio in a file.
#[derive(Clone, Copy, Debug)]
pub struct AudioInfo {
    pub sample_rate: u32,
    pub channels: usize,
    pub codec: Codec,
    pub n_frames: Option<u64>,
    pub replaygain: ReplayGainInfo,
}

/// A length in units of a time base, as far as the container states them.
#[derive(Clone, Copy, Debug)]
pub struct Span {
    /// Numerator and denominator of one unit, in seconds.
    pub time_base: Option<(u32, u32)>,
    pub ticks: Option<u64>,
}

/// What the container says about the track to play.
#[derive(Clone, Copy, Debug)]
pub struct TrackHeader {
    pub track_id: u32,
    pub codec: Codec,
    pub sample_rate: Option<u32>,
    pub channels: Option<usize>,
    pub n_frames: Option<u64>,
    /// Time base and duration of the track itself.
    pub track: Span,
    /// Time base and duration of the whole file.
    pub media: Span,
    /// The length is a guess from the bit rate.
    pub duration_estimated: bool,
}

impl TrackHeader {
    /// The format to decode, where a probe `found` one or none.
    pub open spec fn format(self, found: Option<(u32, usize)>) -> Option<(u32, usize)> {
        match (self.sample_rate, self.channels) {
            (Some(rate), Some(channels)) => Some((rate, channels)),
            _ => found,
        }
    }

    /// Whether the header leaves the format open, so that packets have to be
    /// looked at for it by a [`Probe`] and the file has to be rewound after that.
    pub fn needs_probe(&self) -> (needed: bool)
        ensures
            needed == (self.sample_rate is None || self.channels is None),
    {
        self.sample_rate.is_none() || self.channels.is_none()
    }
}

/// Why a file could not be opened for decoding.
#[derive(Clone, Debug, PartialEq)]
pub enum OpenFault {
    /// The container could not be read.
    Reader(String),
    /// It has no audio track.
    NoTrack,
    /// The audio track has no codec parameters.
    NoParams,
    /// No decoder could be made for the codec.
    Codec(String),
}

/// Why a file could not be opened again for a seek.
#[derive(Clone, Debug, PartialEq)]
pub enum ReopenFault {
    /// The container could not be read.
    Reader(String),
    /// The track is gone.
    NoTrack,
    /// The track has no codec parameters any more.
    NoParams,
    /// No decoder could be made for the codec.
    Codec(String),
}

/// The text of the error for `fault`.
pub open spec fn open_text(fault: OpenFault) -> Seq<char> {
    match fault {
        OpenFault::Reader(what) => "Format reader error: "@ + what@,
        OpenFault::NoTrack => "no audio track"@,
        OpenFault::NoParams => "no audio codec params"@,
        OpenFault::Codec(what) => what@,
    }
}

/// The text of the error for `fault`.
pub open spec fn reopen_text(fault: ReopenFault) -> Seq<char> {
    match fault {
        ReopenFault::Reader(what) => "Failed to reopen for seek: "@ + what@,
        ReopenFault::NoTrack => "track not found on reopen"@,
        ReopenFault::NoParams => "no audio params on reopen"@,
        ReopenFault::Codec(what) => what@,
    }
}

/// The error a failed open is reported as.
pub fn open_error(fault: OpenFault) -> (error: VoxError)
    ensures
        error matches VoxError::Decoder(text) && text@ == open_text(fault),
{
    VoxError::Decoder(
        match fault {
            OpenFault::Reader(what) => String::from_str("Format reader error: ").concat(
                what.as_str(),
            ),
            OpenFault::NoTrack => String::from_str("no audio track"),
            OpenFault::NoParams => String::from_str("no audio codec params"),
            OpenFault::Codec(what) => what,
        },
    )
}

/// The error a failed reopen is reported as.
pub fn reopen_error(fault: ReopenFault) -> (error: VoxError)
    ensures
        error matches VoxError::Seek(text) && text@ == reopen_text(fault),
{
    VoxError::Seek(
        match fault {
            ReopenFault::Reader(what) => String::from_str("Failed to reopen for seek: ").concat(
                what.as_str(),
            ),
            ReopenFault::NoTrack => String::from_str("track not found on reopen"),
            ReopenFault::NoParams => String::from_str("no audio params on reopen"),
            ReopenFault::Codec(what) => what,
        },
    )
}

/// Whether the decoder has to be told a stereo layout: libopus needs an explicit
/// one where the container omits it.
pub fn opus_params(codec: Codec, channels: Option<usize>) -> (stereo: bool)
    ensures
        stereo == (codec == Codec::Opus && channels is None),
{
    codec == Codec::Opus && channels.is_none()
}

/// Whether a track's length is only a guess from the bit rate: that of an MP3
/// whose encoder left no header, which would have told how many frames it put
/// before and after the audio.
pub fn is_estimated(codec: Codec, delay: Option<u32>, padding: Option<u32>) -> (estimated: bool)
    ensures
        estimated == (codec == Codec::Mp3 && delay is None && padding is None),
{
    codec == Codec::Mp3 && delay.is_none() && padding.is_none()
}

/// What looking at one packet shows of the stream's format.
#[derive(Clone, Copy, Debug, PartialEq, Eq, Structural)]
pub enum ProbeRead {
    /// The packet belongs to another track.
    Foreign,
    /// The packet was corrupt.
    Corrupt,
    /// The packet decoded to audio of this rate and channel count.
    Format(u32, usize),
    /// The stream ended or failed.
    Over,
}

/// Whether a look settles what the format is, or that it stays unknown.
pub open spec fn settles(read: ProbeRead) -> bool {
    read is Format || read is Over
}

/// `reads` is a whole probe: it stops at the first look that settles the matter
/// and goes on to [`MAX_PROBE_PACKETS`] looks otherwise.
pub open spec fn is_probe(reads: Seq<ProbeRead>) -> bool {
    &&& reads.len() <= MAX_PROBE_PACKETS
    &&& forall|i: int| 0 <= i < reads.len() - 1 ==> !settles(#[trigger] reads[i])
    &&& reads.len() < MAX_PROBE_PACKETS ==> reads.len() > 0 && settles(reads.last())
}

/// The format a probe found.
pub open spec fn found(reads: Seq<ProbeRead>) -> Option<(u32, usize)> {
    match reads.last() {
        ProbeRead::Format(rate, channels) => Some((rate, channels)),
        _ => None,
    }
}

/// A probe of the stream's format: packets are decoded until one shows it.
#[derive(Clone, Copy, Debug, PartialEq, Eq, Structural)]
pub struct Probe {
    /// Packets looked at that did not settle the matter.
    pub looked: usize,
}

impl Probe {
    /// The probe after one more look.
    pub open spec fn after(self, read: ProbeRead) -> Probe {
        if settles(read) {
            self
        } else {
            Probe { looked: (self.looked + 1) as usize }
        }
    }

    /// What one more look gives: the format, that it stays unknown, or `None` to
    /// look once more.
    pub open spec fn verdict(self, read: ProbeRead) -> Option<Option<(u32, usize)>> {
        match read {
            ProbeRead::Format(rate, channels) => Some(Some((rate, channels))),
            ProbeRead::Over => Some(None),
            _ => if self.looked + 1 >= MAX_PROBE_PACKETS {
                Some(None)
            } else {
                None
            },
        }
    }

    /// A probe that has not looked at any packet.
    pub fn new() -> (probe: Self)
        ensures
            probe.looked == 0,
    {
        Probe { looked: 0 }
    }

    /// Takes in a look at the next packet. See [`Probe::verdict`].
    pub fn looked_at(&mut self, read: ProbeRead) -> (done: Option<Option<(u32, usize)>>)
        requires
            old(self).looked < MAX_PROBE_PACKETS,
        ensures
            done == old(self).verdict(read),
            *final(self) == old(self).after(read),
    {
        match read {
            ProbeRead::Format(rate, channels) => Some(Some((rate, channels))),
            ProbeRead::Over => Some(None),
            _ => {
                self.looked = self.looked + 1;
                if self.looked >= MAX_PROBE_PACKETS {
                    Some(None)
                } else {
                    None
                }
            },
        }
    }
}

/// What a fresh probe comes to after a run of looks, none of which is taken in
/// once it is done.
pub open spec fn probed(reads: Seq<ProbeRead>) -> (Probe, Option<Option<(u32, usize)>>)
    decreases reads.len(),
{
    if reads.len() == 0 {
        (Probe { looked: 0 }, None)
    } else {
        let (probe, done) = probed(reads.drop_last());
        if done is Some {
            (probe, done)
        } else {
            (probe.after(reads.last()), probe.verdict(reads.last()))
        }
    }
}

/// A probe goes on as long as nothing is settled and packets may be looked at,
/// and then ends with the format that the last look showed, if it showed one.
pub proof fn probe_ends_with_its_last_look(reads: Seq<ProbeRead>)
    requires
        reads.len() <= MAX_PROBE_PACKETS,
        forall|i: int| 0 <= i < reads.len() - 1 ==> !settles(#[trigger] reads[i]),
    ensures
        is_probe(reads) ==> probed(reads).1 == Some(found(reads)),
        !is_probe(reads) ==> probed(reads).1 is None,
    decreases reads.len(),
{
    if reads.len() > 0 {
        let rest = reads.drop_last();
        assert forall|i: int| 0 <= i < rest.len() implies !settles(#[trigger] rest[i]) by {
            assert(rest[i] == reads[i]);
        }
        probe_ends_with_its_last_look(rest);
        lemma_unsettled(rest);
        if rest.len() > 0 {
            assert(!settles(rest.last()));
        }
    }
}

/// A probe whose looks settled nothing has counted them all.
proof fn lemma_unsettled(reads: Seq<ProbeRead>)
    requires
        reads.len() < MAX_PROBE_PACKETS,
        forall|i: int| 0 <= i < reads.len() ==> !settles(#[trigger] reads[i]),
    ensures
        probed(reads) == (Probe { looked: reads.len() as usize }, None::<Option<(u32, usize)>>),
    decreases reads.len(),
{
    if reads.len() > 0 {
        let rest = reads.drop_last();
        assert forall|i: int| 0 <= i < rest.len() implies !settles(#[trigger] rest[i]) by {
            assert(rest[i] == reads[i]);
        }
        lemma_unsettled(rest);
        assert(!settles(reads.last()));
    }
}

/// The exact value of `ticks` units of `numer / denom` seconds in nanoseconds,
/// rounded towards zero.
pub open spec fn exact_nanos(numer: u32, denom: u32, ticks: int) -> int {
    let scale = numer * 1_000_000_000;
    if ticks >= 0 {
        ticks * scale / (denom as int)
    } else {
        -((-ticks) * scale / (denom as int))
    }
}

/// A count of nanoseconds whose whole seconds fit into 64 bits.
pub open spec fn countable(nanos: int) -> bool {
    i64::MIN <= nanos / 1_000_000_000 <= i64::MAX
}

/// The time of a timestamp, where the time base is proper and the time can be
/// counted.
pub open spec fn exact_time(numer: u32, denom: u32, ticks: i64) -> Option<i128> {
    let nanos = exact_nanos(numer, denom, ticks as int);
    if numer != 0 && denom != 0 && countable(nanos) {
        Some(nanos as i128)
    } else {
        None
    }
}

/// `symphonia::core::units::TimeBase::calc_time`, on the time base that
/// `TimeBase::try_new` makes, the time read by `Time::as_nanos`: the exact time
/// of a timestamp rounded towards zero to nanoseconds. There is none where the
/// time base has a zero in it or the seconds do not fit into 64 bits.
#[verifier::external_body]
fn ticks_to_nanos(numer: u32, denom: u32, ticks: i64) -> (nanos: Option<i128>)
    ensures
        nanos == exact_time(numer, denom, ticks),
{
    let time_base = symphonia::core::units::TimeBase::try_new(numer, denom)?;
    let timestamp = symphonia::core::units::Timestamp::new(ticks);
    time_base.calc_time(timestamp).map(|time| time.as_nanos())
}

/// The length of a span in nanoseconds, where the container states one that
/// fits.
pub open spec fn span_nanos(span: Span) -> Option<nat> {
    match (span.time_base, span.ticks) {
        (Some((numer, denom)), Some(ticks)) => {
            let nanos = exact_nanos(numer, denom, ticks as int);
            if ticks <= i64::MAX && numer != 0 && denom != 0 && countable(nanos) {
                Some(nanos as nat)
            } else {
                None
            }
        },
        _ => None,
    }
}

/// Converts a timebase-unit duration into nanoseconds.
fn duration_nanos(span: Span) -> (nanos: Option<u128>)
    ensures
        nanos is Some <==> span_nanos(span) is Some,
        nanos is Some ==> nanos->0 == span_nanos(span)->0 && nanos->0 < 0x8000_0000_0000_0000
            * 1_000_000_000,
{
    match (span.time_base, span.ticks) {
        (Some((numer, denom)), Some(ticks)) => {
            if ticks > i64::MAX as u64 {
                return None;
            }
            match ticks_to_nanos(numer, denom, ticks as i64) {
                Some(nanos) => {
                    proof {
                        let scale = numer * 1_000_000_000;
                        assert(0 <= ticks * scale) by (nonlinear_arith)
                            requires
                                0 <= ticks,
                                0 <= scale,
                        ;
                        vstd::arithmetic::div_mod::lemma_div_pos_is_pos(
                            ticks * scale,
                            denom as int,
                        );
                    }
                    Some(nanos as u128)
                },
                None => None,
            }
        },
        _ => None,
    }
}

/// How many frames at `rate` fit into `nanos`.
pub open spec fn nanos_frames(nanos: nat, rate: u32) -> u64 {
    clip(nanos * rate as nat / 1_000_000_000)
}

/// The length of a track in frames: what the container counts, else what the
/// track's duration amounts to, else what the file's does.
pub open spec fn total_frames(header: TrackHeader, rate: u32) -> Option<u64> {
    if header.n_frames is Some {
        header.n_frames
    } else {
        match (span_nanos(header.track), span_nanos(header.media)) {
            (Some(nanos), _) => Some(nanos_frames(nanos, rate)),
            (None, Some(nanos)) => Some(nanos_frames(nanos, rate)),
            (None, None) => None,
        }
    }
}

/// See [`nanos_frames`].
fn frames_in(nanos: u128, rate: u32) -> (frames: u64)
    requires
        nanos < 0x8000_0000_0000_0000 * 1_000_000_000,
    ensures
        frames == nanos_frames(nanos as nat, rate),
{
    assert(nanos * rate <= u128::MAX) by (nonlinear_arith)
        requires
            nanos < 0x8000_0000_0000_0000 * 1_000_000_000,
            rate <= u32::MAX,
    ;
    assert(0 <= nanos * rate) by (nonlinear_arith)
        requires
            0 <= nanos,
            0 <= rate,
    ;
    let frames: u128 = nanos * rate as u128 / 1_000_000_000;
    if frames > u64::MAX as u128 {
        u64::MAX
    } else {
        frames as u64
    }
}

/// See [`total_frames`].
fn frame_total(header: &TrackHeader, rate: u32) -> (frames: Option<u64>)
    ensures
        frames == total_frames(*header, rate),
{
    if header.n_frames.is_some() {
        return header.n_frames;
    }
    match duration_nanos(header.track) {
        Some(nanos) => Some(frames_in(nanos, rate)),
        None => match duration_nanos(header.media) {
            Some(nanos) => Some(frames_in(nanos, rate)),
            None => None,
        },
    }
}

/// Milliseconds to decode and discard after a seek.
pub open spec fn preroll_ms(codec: Codec) -> nat {
    match codec {
        Codec::Opus => OPUS_SEEK_PREROLL_MS as nat,
        Codec::Vorbis => VORBIS_SEEK_PREROLL_MS as nat,
        _ => 0,
    }
}

/// A failure of the container reader or the decoder, by what it means here. The
/// texts describe it.
#[derive(Clone, Debug, PartialEq)]
pub enum Fault {
    /// The file ended inside a packet.
    UnexpectedEof,
    /// Reading failed in another way.
    Io(String),
    /// The packet is corrupt.
    Corrupt(String),
    /// The decoder has to be reset.
    ResetRequired,
    /// Anything else.
    Fatal(String),
}

/// How decoding goes on after a failure.
#[derive(Clone, Copy, Debug, PartialEq, Eq, Structural)]
pub enum Recovery {
    Retry,
    /// Reset the decoder first.
    ResetAndRetry,
    Eof,
}

/// What reading the next packet gave.
#[derive(Clone, Debug, PartialEq)]
pub enum Read {
    /// A packet of this track.
    Packet(u32),
    /// The end of the stream.
    End,
    Failed(Fault),
}

/// What to do after a read.
#[derive(Clone, Copy, Debug, PartialEq, Eq, Structural)]
pub enum AfterRead {
    /// Decode the packet.
    Decode,
    /// Read the next packet.
    Again,
    /// Reset the decoder and read the next packet.
    ResetAndAgain,
    /// The track is over.
    Over,
}

/// What decoding a packet gave: its frames, interleaved, or a failure.
#[derive(Clone, Debug, PartialEq)]
pub enum Decoded {
    Samples(Vec<u32>),
    Failed(Fault),
}

/// What to do after decoding a packet.
#[derive(Clone, Debug, PartialEq)]
pub enum AfterDecode {
    /// These samples are next.
    Play(Vec<u32>),
    /// Read the next packet.
    Again,
    /// Reset the decoder and read the next packet.
    ResetAndAgain,
    /// The track is over.
    Over,
}

/// Where a seek landed.
#[derive(Clone, Copy, Debug, PartialEq, Eq, Structural)]
pub struct Landing {
    /// The position, in units of which there are `per_second` in a second. It is
    /// negative where the seek landed before the start of the audio.
    pub units: i64,
    pub per_second: u32,
    /// The decoder was thrown to the position and has to reconverge.
    pub needs_warmup: bool,
}

/// What follows a container's jump.
#[derive(Clone, Copy, Debug, PartialEq, Eq, Structural)]
pub enum AfterJump {
    /// The seek is done.
    Landed(Landing),
    /// The file has to be opened anew and the jump tried once more.
    Reopen,
}

/// The engine's record of an open file.
pub struct VoxDecoder {
    pub path: String,
    pub track_id: u32,
    /// The track's time base, in seconds per unit.
    pub time_base: Option<(u32, u32)>,
    pub io_retries: u32,
    pub recovered: Vec<String>,
    pub seek_preroll_frames: u64,
    /// Frames decoded so far.
    pub frames_emitted: u64,
    pub duration_estimated: bool,
    pub info: AudioInfo,
}

/// The sum of two counts, or the largest one where it does not fit.
fn saturating_sum(a: u64, b: u64) -> (sum: u64)
    ensures
        sum == clip(a as nat + b as nat),
{
    match a.checked_add(b) {
        Some(sum) => sum,
        None => u64::MAX,
    }
}

/// One more failure. Past the limit there is nothing left to count.
pub open spec fn counted(failures: u32, limit: u32) -> u32 {
    if failures <= limit {
        (failures + 1) as u32
    } else {
        failures
    }
}

/// See [`counted`].
fn count_up(failures: u32, limit: u32) -> (more: u32)
    requires
        limit < u32::MAX,
    ensures
        more == counted(failures, limit),
{
    if failures <= limit {
        failures + 1
    } else {
        failures
    }
}

/// `value`, or the end of the range that it lies beyond.
pub open spec fn fit(value: int) -> i64 {
    if value > i64::MAX {
        i64::MAX
    } else if value < i64::MIN {
        i64::MIN
    } else {
        value as i64
    }
}

/// See [`fit`].
fn narrowed(value: i128) -> (narrow: i64)
    ensures
        narrow == fit(value as int),
{
    if value > i64::MAX as i128 {
        i64::MAX
    } else if value < i64::MIN as i128 {
        i64::MIN
    } else {
        value as i64
    }
}

/// More frames have to be discarded.
pub open spec fn skips_on(frames: u64, skipped: u64) -> bool {
    skipped < frames
}

/// Frames discarded once `gone` more are.
pub open spec fn skipped_with(skipped: u64, gone: nat) -> u64 {
    clip(skipped as nat + gone)
}

/// Whole frames in an interleaved buffer.
pub fn frames_of(samples: usize, channels: usize) -> (frames: u64)
    ensures
        frames == samples as nat / at_least_one(channels as nat),
{
    let per_frame: usize = if channels == 0 {
        1
    } else {
        channels
    };
    (samples / per_frame) as u64
}

/// `decoder` is the fresh record of the file at `path` with this header, format
/// and these ReplayGain values.
pub open spec fn is_fresh(
    decoder: VoxDecoder,
    path: Seq<char>,
    header: TrackHeader,
    rate: u32,
    channels: usize,
    replaygain: ReplayGainInfo,
) -> bool {
    &&& decoder.path@ == path
    &&& decoder.track_id == header.track_id
    &&& decoder.time_base == header.track.time_base
    &&& decoder.io_retries == 0
    &&& decoder.recovered@ == Seq::<String>::empty()
    &&& decoder.seek_preroll_frames == rate as nat * preroll_ms(header.codec) / 1000
    &&& decoder.frames_emitted == 0
    &&& decoder.duration_estimated == header.duration_estimated
    &&& decoder.info == (AudioInfo {
        sample_rate: rate,
        channels,
        codec: header.codec,
        n_frames: total_frames(header, rate),
        replaygain,
    })
}

impl VoxDecoder {
    /// Records a file whose header has been read. `found` is the format that a
    /// [`Probe`] showed, and counts where the header leaves the format open;
    /// `replaygain` is what [`crate::replaygain::read_replaygain`] made of the
    /// tags.
    pub fn open(
        path: String,
        header: Result<TrackHeader, OpenFault>,
        found: Option<(u32, usize)>,
        replaygain: ReplayGainInfo,
    ) -> (opened: Result<VoxDecoder, VoxError>)
        ensures
            match header {
                Err(fault) => opened matches Err(VoxError::Decoder(text)) && text@ == open_text(
                    fault,
                ),
                Ok(h) => match h.format(found) {
                    Some((rate, channels)) => opened matches Ok(decoder) && is_fresh(
                        decoder,
                        path@,
                        h,
                        rate,
                        channels,
                        replaygain,
                    ),
                    None => opened matches Err(VoxError::Decoder(text)) && text@
                        == "Could not determine sample_rate and/or channels"@,
                },
            },
    {
        let header: TrackHeader = match header {
            Ok(header) => header,
            Err(fault) => return Err(open_error(fault)),
        };
        let known: Option<(u32, usize)> = match (header.sample_rate, header.channels) {
            (Some(rate), Some(channels)) => Some((rate, channels)),
            _ => found,
        };
        let (rate, channels) = match known {
            Some((rate, channels)) => (rate, channels),
            None => return Err(
                VoxError::Decoder(
                    String::from_str("Could not determine sample_rate and/or channels"),
                ),
            ),
        };
        let n_frames: Option<u64> = frame_total(&header, rate);
        let ms: u64 = match header.codec {
            Codec::Opus => OPUS_SEEK_PREROLL_MS,
            Codec::Vorbis => VORBIS_SEEK_PREROLL_MS,
            _ => 0,
        };
        assert(rate * ms <= u32::MAX * 80) by (nonlinear_arith)
            requires
                0 <= rate <= u32::MAX,
                0 <= ms <= 80,
        ;
        Ok(
            VoxDecoder {
                path,
                track_id: header.track_id,
                time_base: header.track.time_base,
                io_retries: 0,
                recovered: Vec::new(),
                seek_preroll_frames: rate as u64 * ms / 1000,
                frames_emitted: 0,
                duration_estimated: header.duration_estimated,
                info: AudioInfo {
                    sample_rate: rate,
                    channels,
                    codec: header.codec,
                    n_frames,
                    replaygain,
                },
            },
        )
    }

    /// Where the file is.
    pub fn path(&self) -> (path: &str)
        ensures
            path@ == self.path@,
    {
        self.path.as_str()
    }

    /// The playable duration in microseconds, where the length is known.
    pub open spec fn playable(self) -> Option<u64> {
        match self.info.n_frames {
            Some(frames) => Some(frames_micros(frames as nat, self.info.sample_rate as nat)),
            None => None,
        }
    }

    /// See [`VoxDecoder::playable`].
    pub fn playable_duration(&self) -> (micros: Option<u64>)
        ensures
            micros == self.playable(),
    {
        match self.info.n_frames {
            Some(frames) => Some(frames_to_micros(frames, self.info.sample_rate)),
            None => None,
        }
    }

    /// Frames to decode-and-discard after a seek so the codec reconverges.
    pub fn seek_preroll_frames(&self) -> (frames: u64)
        ensures
            frames == self.seek_preroll_frames,
    {
        self.seek_preroll_frames
    }

    /// Frames decoded since the file was opened.
    pub fn frames_emitted(&self) -> (frames: u64)
        ensures
            frames == self.frames_emitted,
    {
        self.frames_emitted
    }

    /// Whether the duration is only an estimate.
    pub fn duration_estimated(&self) -> (estimated: bool)
        ensures
            estimated == self.duration_estimated,
    {
        self.duration_estimated
    }

    /// What a file is, as opposed to how decoding it goes.
    pub open spec fn same_file(self, other: VoxDecoder) -> bool {
        &&& self.path == other.path
        &&& self.track_id == other.track_id
        &&& self.time_base == other.time_base
        &&& self.seek_preroll_frames == other.seek_preroll_frames
        &&& self.duration_estimated == other.duration_estimated
        &&& self.info == other.info
    }

    /// `outcome` and `after` are what a failure leads to.
    pub open spec fn recovers(
        self,
        fault: Fault,
        after: VoxDecoder,
        outcome: Result<Recovery, VoxError>,
    ) -> bool {
        &&& after.same_file(self)
        &&& after.frames_emitted == self.frames_emitted
        &&& after.io_retries == (if fault is Io {
            counted(self.io_retries, MAX_IO_RETRIES)
        } else {
            self.io_retries
        })
        &&& match fault {
            Fault::UnexpectedEof => outcome == Ok::<Recovery, VoxError>(Recovery::Eof)
                && after.recovered@ == self.recovered@,
            Fault::ResetRequired => outcome == Ok::<Recovery, VoxError>(Recovery::ResetAndRetry)
                && after.recovered@ == self.recovered@,
            Fault::Io(text) => if self.io_retries < MAX_IO_RETRIES {
                outcome == Ok::<Recovery, VoxError>(Recovery::Retry) && after.recovered@
                    == self.recovered@.push(text)
            } else {
                &&& outcome matches Err(VoxError::Decoder(said))
                &&& said@ == "io retries exhausted: "@ + text@
                &&& after.recovered@ == self.recovered@
            },
            Fault::Corrupt(text) => outcome == Ok::<Recovery, VoxError>(Recovery::Retry)
                && after.recovered@ == self.recovered@.push(text),
            Fault::Fatal(text) => outcome == Err::<Recovery, VoxError>(VoxError::Decoder(text))
                && after.recovered@ == self.recovered@,
        }
    }

    /// Classifies a failure: clean end, recoverable, or fatal. Corrupt packets are
    /// passed over, however many there are; reads are retried within the budget.
    fn recover(&mut self, fault: Fault) -> (outcome: Result<Recovery, VoxError>)
        ensures
            old(self).recovers(fault, *final(self), outcome),
    {
        match fault {
            Fault::UnexpectedEof => Ok(Recovery::Eof),
            Fault::Io(text) => {
                self.io_retries = count_up(self.io_retries, MAX_IO_RETRIES);
                if self.io_retries > MAX_IO_RETRIES {
                    return Err(
                        VoxError::Decoder(
                            String::from_str("io retries exhausted: ").concat(text.as_str()),
                        ),
                    );
                }
                self.recovered.push(text);
                Ok(Recovery::Retry)
            },
            Fault::Corrupt(text) => {
                self.recovered.push(text);
                Ok(Recovery::Retry)
            },
            Fault::ResetRequired => Ok(Recovery::ResetAndRetry),
            Fault::Fatal(text) => Err(VoxError::Decoder(text)),
        }
    }

    /// Hands over the texts of the failures recovered from so far.
    pub fn take_recovered(&mut self) -> (recovered: Vec<String>)
        ensures
            recovered@ == old(self).recovered@,
            final(self).recovered@ == Seq::<String>::empty(),
            final(self).same_file(*old(self)),
            final(self).frames_emitted == old(self).frames_emitted,
            final(self).io_retries == old(self).io_retries,
    {
        let mut recovered: Vec<String> = Vec::new();
        std::mem::swap(&mut self.recovered, &mut recovered);
        recovered
    }

    /// Decides what follows from reading the next packet: packets of other
    /// tracks are passed over.
    pub fn next_packet(&mut self, read: Read) -> (after: Result<AfterRead, VoxError>)
        ensures
            match read {
                Read::Packet(track_id) => *final(self) == *old(self) && after == Ok::<
                    AfterRead,
                    VoxError,
                >(
                    if track_id == old(self).track_id {
                        AfterRead::Decode
                    } else {
                        AfterRead::Again
                    },
                ),
                Read::End => *final(self) == *old(self) && after == Ok::<AfterRead, VoxError>(
                    AfterRead::Over,
                ),
                Read::Failed(fault) => exists|outcome: Result<Recovery, VoxError>| #[trigger]
                    old(self).recovers(fault, *final(self), outcome) && match outcome {
                        Ok(Recovery::Eof) => after == Ok::<AfterRead, VoxError>(AfterRead::Over),
                        Ok(Recovery::Retry) => after == Ok::<AfterRead, VoxError>(
                            AfterRead::Again,
                        ),
                        Ok(Recovery::ResetAndRetry) => after == Ok::<AfterRead, VoxError>(
                            AfterRead::ResetAndAgain,
                        ),
                        Err(error) => after == Err::<AfterRead, VoxError>(error),
                    },
            },
    {
        match read {
            Read::Packet(track_id) => if track_id == self.track_id {
                Ok(AfterRead::Decode)
            } else {
                Ok(AfterRead::Again)
            },
            Read::End => Ok(AfterRead::Over),
            Read::Failed(fault) => match self.recover(fault) {
                Ok(Recovery::Eof) => Ok(AfterRead::Over),
                Ok(Recovery::Retry) => Ok(AfterRead::Again),
                Ok(Recovery::ResetAndRetry) => Ok(AfterRead::ResetAndAgain),
                Err(error) => Err(error),
            },
        }
    }

    /// Decides what follows from decoding a packet: one without frames is passed
    /// over, and one with frames ends the current run of failures.
    pub fn packet_decoded(&mut self, decoded: Decoded) -> (after: Result<AfterDecode, VoxError>)
        ensures
            match decoded {
                Decoded::Samples(samples) => if samples@.len() == 0 {
                    *final(self) == *old(self) && after == Ok::<AfterDecode, VoxError>(
                        AfterDecode::Again,
                    )
                } else {
                    &&& after == Ok::<AfterDecode, VoxError>(AfterDecode::Play(samples))
                    &&& final(self).same_file(*old(self))
                    &&& final(self).io_retries == 0
                    &&& final(self).recovered == old(self).recovered
                    &&& final(self).frames_emitted == clip(
                        old(self).frames_emitted as nat + samples@.len() / at_least_one(
                            old(self).info.channels as nat,
                        ),
                    )
                },
                Decoded::Failed(fault) => exists|outcome: Result<Recovery, VoxError>| #[trigger]
                    old(self).recovers(fault, *final(self), outcome) && match outcome {
                        Ok(Recovery::Eof) => after == Ok::<AfterDecode, VoxError>(
                            AfterDecode::Over,
                        ),
                        Ok(Recovery::Retry) => after == Ok::<AfterDecode, VoxError>(
                            AfterDecode::Again,
                        ),
                        Ok(Recovery::ResetAndRetry) => after == Ok::<AfterDecode, VoxError>(
                            AfterDecode::ResetAndAgain,
                        ),
                        Err(error) => after == Err::<AfterDecode, VoxError>(error),
                    },
            },
    {
        match decoded {
            Decoded::Samples(samples) => {
                if samples.len() == 0 {
                    return Ok(AfterDecode::Again);
                }
                self.io_retries = 0;
                self.frames_emitted = saturating_sum(
                    self.frames_emitted,
                    frames_of(samples.len(), self.info.channels),
                );
                Ok(AfterDecode::Play(samples))
            },
            Decoded::Failed(fault) => match self.recover(fault) {
                Ok(Recovery::Eof) => Ok(AfterDecode::Over),
                Ok(Recovery::Retry) => Ok(AfterDecode::Again),
                Ok(Recovery::ResetAndRetry) => Ok(AfterDecode::ResetAndAgain),
                Err(error) => Err(error),
            },
        }
    }

    /// Whether to read a packet for the sake of discarding `frames` frames,
    /// `skipped` being gone already. Nothing is read where nothing has to go.
    pub fn has_to_skip(frames: u64, skipped: u64) -> (more: bool)
        ensures
            more == skips_on(frames, skipped),
    {
        skipped < frames
    }

    /// One turn of decoding and discarding up to `frames` frames, `skipped` being
    /// gone already: how many are gone after a packet of `samples` samples, and
    /// whether more have to go. `None` for the packet means the track is over.
    /// [`VoxDecoder::has_to_skip`] says whether there is a turn at all.
    pub fn skip_samples(&self, frames: u64, skipped: u64, samples: Option<usize>) -> (turn: (
        u64,
        bool,
    ))
        ensures
            ({
                let gone = match samples {
                    Some(n) => n as nat / at_least_one(self.info.channels as nat),
                    None => 0,
                };
                &&& turn.0 == skipped_with(skipped, gone)
                &&& turn.1 == (samples is Some && skips_on(frames, turn.0))
            }),
    {
        match samples {
            Some(n) => {
                let gone: u64 = saturating_sum(skipped, frames_of(n, self.info.channels));
                (gone, Self::has_to_skip(frames, gone))
            },
            None => (skipped, false),
        }
    }

    /// The time of the timestamp a seek landed on. Where the time base cannot
    /// say, the seek is taken to have landed on its target; without a time base,
    /// timestamps count frames.
    pub open spec fn landing_at(self, ticks: i64, target: u64) -> Landing {
        match self.time_base {
            Some((numer, denom)) => match exact_time(numer, denom, ticks) {
                Some(nanos) => Landing {
                    units: fit(nanos as int),
                    per_second: 1_000_000_000,
                    needs_warmup: true,
                },
                None => Landing {
                    units: fit(target as int),
                    per_second: 1_000_000,
                    needs_warmup: true,
                },
            },
            None => Landing {
                units: ticks,
                per_second: self.info.sample_rate,
                needs_warmup: true,
            },
        }
    }

    /// See [`VoxDecoder::landing_at`].
    fn landed_at(&self, ticks: i64, target: u64) -> (landing: Landing)
        ensures
            landing == self.landing_at(ticks, target),
    {
        match self.time_base {
            Some((numer, denom)) => match ticks_to_nanos(numer, denom, ticks) {
                Some(nanos) => Landing {
                    units: narrowed(nanos),
                    per_second: 1_000_000_000,
                    needs_warmup: true,
                },
                None => Landing {
                    units: narrowed(target as i128),
                    per_second: 1_000_000,
                    needs_warmup: true,
                },
            },
            None => Landing {
                units: ticks,
                per_second: self.info.sample_rate,
                needs_warmup: true,
            },
        }
    }

    /// Whether a seek to `target` microseconds may go ahead: a time that cannot be
    /// counted is refused before anything is moved. Then the container is asked to
    /// jump there, and [`VoxDecoder::jumped`] says what follows.
    pub fn seek(&self, target: u64) -> (allowed: Result<(), VoxError>)
        ensures
            if target >= LAST_TIME {
                allowed matches Err(VoxError::Seek(text)) && text@ == "invalid seek time"@
            } else {
                allowed is Ok
            },
    {
        if target >= LAST_TIME {
            return Err(VoxError::Seek(String::from_str("invalid seek time")));
        }
        Ok(())
    }

    /// What follows the container's jump to `target`, which gave the timestamp it
    /// landed on. Where it failed, as it does going backward in a container
    /// without cue points, the file is opened anew and the jump tried once more;
    /// see [`VoxDecoder::jumped_again`].
    pub fn jumped(&self, target: u64, first: Result<i64, String>) -> (after: AfterJump)
        ensures
            after == match first {
                Ok(ticks) => AfterJump::Landed(self.landing_at(ticks, target)),
                Err(_) => AfterJump::Reopen,
            },
    {
        match first {
            Ok(ticks) => AfterJump::Landed(self.landed_at(ticks, target)),
            Err(_) => AfterJump::Reopen,
        }
    }

    /// Where the seek to `target` landed once the file was to be opened anew:
    /// `second` is the failure to do so, or what the second jump gave.
    pub fn jumped_again(
        &self,
        target: u64,
        second: Result<Result<i64, String>, ReopenFault>,
    ) -> (landing: Result<Landing, VoxError>)
        ensures
            match second {
                Err(fault) => landing matches Err(VoxError::Seek(text)) && text@ == reopen_text(
                    fault,
                ),
                Ok(Ok(ticks)) => landing == Ok::<Landing, VoxError>(
                    self.landing_at(ticks, target),
                ),
                Ok(Err(why)) => landing == Err::<Landing, VoxError>(VoxError::Seek(why)),
            },
    {
        match second {
            Err(fault) => Err(reopen_error(fault)),
            Ok(Ok(ticks)) => Ok(self.landed_at(ticks, target)),
            Ok(Err(why)) => Err(VoxError::Seek(why)),
        }
    }
}

/// `trail` is what a run of failures makes of the record of a file, one after
/// the other, with what each failure leads to.
pub open spec fn is_run(
    trail: Seq<VoxDecoder>,
    faults: Seq<Fault>,
    outcomes: Seq<Result<Recovery, VoxError>>,
) -> bool {
    &&& trail.len() == faults.len() + 1
    &&& outcomes.len() == faults.len()
    &&& forall|i: int|
        0 <= i < faults.len() ==> (#[trigger] trail[i]).recovers(
            faults[i],
            trail[i + 1],
            outcomes[i],
        )
}

/// Transient read failures are survived up to the limit: of a run of them right
/// after a good packet, as many as the limit says are recovered from, and every
/// later one is an error.
pub proof fn read_failures_have_a_budget(
    trail: Seq<VoxDecoder>,
    faults: Seq<Fault>,
    outcomes: Seq<Result<Recovery, VoxError>>,
    i: int,
)
    requires
        is_run(trail, faults, outcomes),
        forall|k: int| 0 <= k < faults.len() ==> #[trigger] faults[k] is Io,
        trail[0].io_retries == 0,
        0 <= i < faults.len(),
    ensures
        outcomes[i] is Ok <==> i < MAX_IO_RETRIES,
        trail[i].io_retries == (if i <= MAX_IO_RETRIES {
            i
        } else {
            MAX_IO_RETRIES + 1
        }),
    decreases i,
{
    assert(trail[i].recovers(faults[i], trail[i + 1], outcomes[i]));
    if i > 0 {
        read_failures_have_a_budget(trail, faults, outcomes, i - 1);
        assert(trail[i - 1].recovers(faults[i - 1], trail[i], outcomes[i - 1]));
    }
}

/// Corrupt packets never end a track: of a run of them, however long, each is
/// passed over, and the retries of reads that are left stay what they were. The
/// end of the file after them is an ordinary end.
pub proof fn corrupt_packets_are_passed_over(
    trail: Seq<VoxDecoder>,
    faults: Seq<Fault>,
    outcomes: Seq<Result<Recovery, VoxError>>,
    i: int,
)
    requires
        is_run(trail, faults, outcomes),
        forall|k: int| 0 <= k < faults.len() ==> #[trigger] faults[k] is Corrupt,
        0 <= i < faults.len(),
    ensures
        outcomes[i] == Ok::<Recovery, VoxError>(Recovery::Retry),
        trail[i + 1].io_retries == trail[0].io_retries,
        trail[i + 1].frames_emitted == trail[0].frames_emitted,
        forall|after: VoxDecoder, outcome: Result<Recovery, VoxError>| #[trigger]
            trail[i + 1].recovers(Fault::UnexpectedEof, after, outcome) ==> outcome == Ok::<
                Recovery,
                VoxError,
            >(Recovery::Eof),
    decreases i,
{
    assert(trail[i].recovers(faults[i], trail[i + 1], outcomes[i]));
    if i > 0 {
        corrupt_packets_are_passed_over(trail, faults, outcomes, i - 1);
    }
}

/// How many packets are read, and how many frames are gone then, in discarding
/// `frames` frames from packets of these numbers of frames, `skipped` being gone
/// already.
pub open spec fn skip_run(packets: Seq<nat>, frames: u64, skipped: u64) -> (nat, u64)
    decreases packets.len(),
{
    if !skips_on(frames, skipped) || packets.len() == 0 {
        (0, skipped)
    } else {
        let rest = skip_run(packets.drop_first(), frames, skipped_with(skipped, packets[0]));
        (rest.0 + 1, rest.1)
    }
}

/// Discarding reaches what was asked for unless the track ends first, and reads
/// no packet beyond the one that reaches it; asked for nothing, it reads nothing.
pub proof fn skipping_stops_at_the_request(packets: Seq<nat>, frames: u64, skipped: u64)
    ensures
        ({
            let (read, gone) = skip_run(packets, frames, skipped);
            &&& read <= packets.len()
            &&& gone >= frames || read == packets.len()
            &&& frames <= skipped ==> read == 0 && gone == skipped
            &&& read > 0 ==> gone < frames + packets[read - 1]
        }),
    decreases packets.len(),
{
    if skips_on(frames, skipped) && packets.len() > 0 {
        let rest = packets.drop_first();
        let next = skipped_with(skipped, packets[0]);
        skipping_stops_at_the_request(rest, frames, next);
        let (read, gone) = skip_run(rest, frames, next);
        if read > 0 {
            assert(rest[read - 1] == packets[read as int]);
        }
    }
}

/// Where a seek landed is the time of the timestamp, in nanoseconds and rounded
/// towards the start of the audio from either side, as long as that can be
/// counted. A track without a time base counts its timestamps in frames; one whose
/// time base says nothing is taken to have landed where it was to go.
pub proof fn landing_is_the_time_of_the_timestamp(
    decoder: VoxDecoder,
    ticks: i64,
    target: u64,
    nanos: nat,
)
    requires
        target <= i64::MAX,
        nanos <= i64::MAX,
    ensures
        decoder.landing_at(ticks, target).needs_warmup,
        decoder.time_base is None ==> decoder.landing_at(ticks, target).units == ticks
            && decoder.landing_at(ticks, target).per_second == decoder.info.sample_rate,
        decoder.time_base matches Some((numer, denom)) ==> {
            let landing = decoder.landing_at(ticks, target);
            let away = if ticks >= 0 {
                ticks as int
            } else {
                -ticks
            };
            &&& numer == 0 || denom == 0 ==> landing.units == target && landing.per_second
                == 1_000_000
            &&& numer > 0 && denom > 0 && nanos * denom <= away * numer * 1_000_000_000 && away
                * numer * 1_000_000_000 < (nanos + 1) * denom ==> landing.per_second
                == 1_000_000_000 && landing.units == (if ticks >= 0 {
                nanos as int
            } else {
                -nanos
            })
        },
{
    if let Some((numer, denom)) = decoder.time_base {
        let away = if ticks >= 0 {
            ticks as int
        } else {
            -ticks
        };
        if numer > 0 && denom > 0 && nanos * denom <= away * numer * 1_000_000_000 && away * numer
            * 1_000_000_000 < (nanos + 1) * denom {
            let total = away * (numer * 1_000_000_000);
            assert(total == away * numer * 1_000_000_000) by (nonlinear_arith)
                requires
                    total == away * (numer * 1_000_000_000),
            ;
            crate::timing::lemma_quotient(total, denom as int, nanos as int);
            let exact = exact_nanos(numer, denom, ticks as int);
            assert(exact == nanos || exact == -nanos);
            assert(countable(exact));
        }
    }
}

/// The length of a track is what the container counts. Without that it is as many
/// frames as end within the duration that the track states, or else within that
/// of the file; and without any of these it is unknown.
pub proof fn length_comes_from_the_best_source(
    header: TrackHeader,
    rate: u32,
    nanos: nat,
    frames: nat,
)
    requires
        frames <= u64::MAX,
        frames * 1_000_000_000 <= nanos * rate,
        nanos * rate < (frames + 1) * 1_000_000_000,
    ensures
        header.n_frames is Some ==> total_frames(header, rate) == header.n_frames,
        header.n_frames is None && span_nanos(header.track) == Some(nanos) ==> total_frames(
            header,
            rate,
        ) == Some(frames as u64),
        header.n_frames is None && span_nanos(header.track) is None && span_nanos(header.media)
            == Some(nanos) ==> total_frames(header, rate) == Some(frames as u64),
        header.n_frames is None && span_nanos(header.track) is None && span_nanos(header.media) is
            None ==> total_frames(header, rate) is None,
{
    crate::timing::lemma_quotient((nanos * rate as nat) as int, 1_000_000_000, frames as int);
}

/// A stated duration is so many units of the time base, in whole nanoseconds; there
/// is none where either is missing or the time base has a zero in it.
pub proof fn stated_duration_is_counted_in_its_unit(
    numer: u32,
    denom: u32,
    ticks: u64,
    nanos: nat,
)
    requires
        ticks <= i64::MAX,
        nanos <= i64::MAX,
    ensures
        numer > 0 && denom > 0 && nanos * denom <= ticks * numer * 1_000_000_000 && ticks * numer
            * 1_000_000_000 < (nanos + 1) * denom ==> span_nanos(
            Span { time_base: Some((numer, denom)), ticks: Some(ticks) },
        ) == Some(nanos),
        numer == 0 || denom == 0 ==> span_nanos(
            Span { time_base: Some((numer, denom)), ticks: Some(ticks) },
        ) is None,
        span_nanos(Span { time_base: None, ticks: Some(ticks) }) is None,
        span_nanos(Span { time_base: Some((numer, denom)), ticks: None }) is None,
{
    if numer > 0 && denom > 0 && nanos * denom <= ticks * numer * 1_000_000_000 && ticks * numer
        * 1_000_000_000 < (nanos + 1) * denom {
        let total = ticks * (numer * 1_000_000_000);
        assert(total == ticks * numer * 1_000_000_000) by (nonlinear_arith)
            requires
                total == ticks * (numer * 1_000_000_000),
        ;
        crate::timing::lemma_quotient(total, denom as int, nanos as int);
    }
}

/// A fresh record of a file has the format the header gives, or where that leaves
/// a part open the one that was found; the tags it was given; nothing decoded; and
/// for Opus and Vorbis a pre-roll of two twenty-fifths of a second.
pub proof fn fresh_record_is_that_of_the_file(
    decoder: VoxDecoder,
    path: Seq<char>,
    header: TrackHeader,
    found: Option<(u32, usize)>,
    rate: u32,
    channels: usize,
    replaygain: ReplayGainInfo,
)
    requires
        header.format(found) == Some((rate, channels)),
        is_fresh(decoder, path, header, rate, channels, replaygain),
    ensures
        header.sample_rate is Some && header.channels is Some ==> decoder.info.sample_rate
            == header.sample_rate->0 && decoder.info.channels == header.channels->0,
        header.sample_rate is None || header.channels is None ==> found == Some(
            (decoder.info.sample_rate, decoder.info.channels),
        ),
        decoder.path@ == path,
        decoder.info.codec == header.codec,
        decoder.info.replaygain == replaygain,
        header.n_frames is Some ==> decoder.info.n_frames == header.n_frames,
        decoder.duration_estimated == header.duration_estimated,
        decoder.track_id == header.track_id,
        decoder.time_base == header.track.time_base,
        decoder.frames_emitted == 0,
        decoder.io_retries == 0,
        header.codec == Codec::Opus || header.codec == Codec::Vorbis
            ==> decoder.seek_preroll_frames * 25 <= rate * 2 && rate * 2 < (
        decoder.seek_preroll_frames + 1) * 25,
        header.codec != Codec::Opus && header.codec != Codec::Vorbis ==> decoder.seek_preroll_frames
            == 0,
{
    let ms = preroll_ms(header.codec);
    assert(ms == 80 ==> rate as nat * ms == rate * 80) by (nonlinear_arith);
    assert(ms == 0 ==> rate as nat * ms == 0) by (nonlinear_arith);
}

/// A run of three read failures is survived, and the fourth is not.
pub proof fn fourth_read_failure_ends_the_track(
    decoder: VoxDecoder,
    text: String,
    after: VoxDecoder,
    outcome: Result<Recovery, VoxError>,
)
    requires
        decoder.recovers(Fault::Io(text), after, outcome),
    ensures
        decoder.io_retries < 3 ==> outcome == Ok::<Recovery, VoxError>(Recovery::Retry)
            && after.io_retries == decoder.io_retries + 1,
        decoder.io_retries == 3 ==> outcome is Err,
{
}

/// What a failure leads to rests with its kind alone, but for failures to read:
/// the end of the file inside a packet ends the track, a decoder that asks for it
/// is reset, a corrupt packet is passed over, and anything else is an error with
/// its own text. Neither the file nor what was decoded changes.
pub proof fn failures_are_told_apart(
    decoder: VoxDecoder,
    fault: Fault,
    after: VoxDecoder,
    outcome: Result<Recovery, VoxError>,
)
    requires
        decoder.recovers(fault, after, outcome),
    ensures
        fault == Fault::UnexpectedEof ==> outcome == Ok::<Recovery, VoxError>(Recovery::Eof),
        fault == Fault::ResetRequired ==> outcome == Ok::<Recovery, VoxError>(
            Recovery::ResetAndRetry,
        ),
        fault is Corrupt ==> outcome == Ok::<Recovery, VoxError>(Recovery::Retry),
        fault matches Fault::Fatal(text) ==> outcome == Err::<Recovery, VoxError>(
            VoxError::Decoder(text),
        ),
        after.info == decoder.info,
        after.path == decoder.path,
        after.track_id == decoder.track_id,
        after.frames_emitted == decoder.frames_emitted,
{
}

/// The frames in the first packets of a run.
pub open spec fn frames_of_all(packets: Seq<nat>) -> nat
    decreases packets.len(),
{
    if packets.len() == 0 {
        0
    } else {
        packets[0] + frames_of_all(packets.drop_first())
    }
}

/// What has been discarded is all of the packets that were read, and no packet was
/// read once enough was gone.
pub proof fn skipping_counts_every_frame(packets: Seq<nat>, frames: u64, skipped: u64)
    requires
        skipped + frames_of_all(packets) <= u64::MAX,
    ensures
        ({
            let (read, gone) = skip_run(packets, frames, skipped);
            &&& read <= packets.len()
            &&& gone == skipped + frames_of_all(packets.take(read as int))
            &&& forall|k: int|
                0 <= k < read ==> skipped + #[trigger] frames_of_all(packets.take(k)) < frames
        }),
    decreases packets.len(),
{
    let (read, gone) = skip_run(packets, frames, skipped);
    if skips_on(frames, skipped) && packets.len() > 0 {
        let rest = packets.drop_first();
        let next = skipped_with(skipped, packets[0]);
        skipping_counts_every_frame(rest, frames, next);
        assert(read == skip_run(rest, frames, next).0 + 1);
        assert(packets.take(read as int).drop_first() =~= rest.take(read - 1));
        assert forall|k: int| 0 <= k < read implies skipped + #[trigger] frames_of_all(
            packets.take(k),
        ) < frames by {
            if k > 0 {
                assert(packets.take(k).drop_first() =~= rest.take(k - 1));
                assert(frames_of_all(packets.take(k)) == packets[0] + frames_of_all(
                    rest.take(k - 1),
                ));
            } else {
                assert(packets.take(0).len() == 0);
            }
        }
    } else {
        assert(packets.take(0).len() == 0);
    }
}

/// A packet that shows the format ends a probe with it, and the end of the stream
/// ends it without; packets of other tracks and corrupt ones are passed over until
/// ten have been looked at.
pub proof fn probe_passes_over_up_to_ten_packets(probe: Probe, rate: u32, channels: usize)
    requires
        probe.looked < 10,
    ensures
        probe.verdict(ProbeRead::Format(rate, channels)) == Some(Some((rate, channels))),
        probe.verdict(ProbeRead::Over) == Some(None::<(u32, usize)>),
        probe.looked < 9 ==> probe.verdict(ProbeRead::Foreign) is None,
        probe.looked < 9 ==> probe.verdict(ProbeRead::Corrupt) is None,
        probe.looked == 9 ==> probe.verdict(ProbeRead::Foreign) == Some(None::<(u32, usize)>),
        probe.looked == 9 ==> probe.verdict(ProbeRead::Corrupt) == Some(None::<(u32, usize)>),
        probe.after(ProbeRead::Foreign).looked == probe.looked + 1,
        probe.after(ProbeRead::Corrupt).looked == probe.looked + 1,
{
}

/// What was recovered from is kept for the caller, in the order it came up; what
/// was not is said in the error.
pub proof fn recovered_failures_are_kept(
    decoder: VoxDecoder,
    text: String,
    after: VoxDecoder,
    outcome: Result<Recovery, VoxError>,
)
    ensures
        decoder.recovers(Fault::Corrupt(text), after, outcome) ==> after.recovered@
            == decoder.recovered@.push(text),
        decoder.recovers(Fault::Io(text), after, outcome) && outcome is Ok ==> after.recovered@
            == decoder.recovered@.push(text),
        decoder.recovers(Fault::Io(text), after, outcome) && outcome is Err ==> after.recovered@
            == decoder.recovered@,
        decoder.recovers(Fault::UnexpectedEof, after, outcome) ==> after.recovered@
            == decoder.recovered@,
{
}

/// A position beyond the range of whole numbers stops at its end.
pub proof fn positions_stop_at_the_ends_of_the_range(value: int)
    ensures
        i64::MIN <= value <= i64::MAX ==> fit(value) == value,
        value > i64::MAX ==> fit(value) == i64::MAX,
        value < i64::MIN ==> fit(value) == i64::MIN,
{
}

} // verus!
