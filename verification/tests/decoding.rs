//! Decodes a file held in memory with the real container reader and codec.

use std::io::Cursor;
use voxio::decoder::{
    AfterDecode, AfterJump, AfterRead, Codec, Decoded, Fault, OpenFault, Read, Span, TrackHeader,
    VoxDecoder,
};
use voxio::error::VoxError;
use voxio::replaygain::ReplayGainInfo;
use voxio::waveform::{BinMetric, Bucket, FineBuckets, Waveform};

const NAME: &str = "sine.wav";
const RATE: u32 = 44_100;
const SECS: u32 = 8;

type Format = Box<dyn symphonia::core::formats::FormatReader>;
type Codecs = Box<dyn symphonia::core::codecs::audio::AudioDecoder>;

struct File {
    format: Format,
    codec: Codecs,
    track_id: u32,
}

/// Stereo 16-bit PCM, a sine of 441 Hz at half of full scale.
fn wav(secs: u32) -> Vec<u8> {
    let frames = RATE * secs;
    let data = frames * 4;
    let mut out: Vec<u8> = Vec::new();
    out.extend_from_slice(b"RIFF");
    out.extend_from_slice(&(36 + data).to_le_bytes());
    out.extend_from_slice(b"WAVEfmt ");
    out.extend_from_slice(&16u32.to_le_bytes());
    out.extend_from_slice(&1u16.to_le_bytes());
    out.extend_from_slice(&2u16.to_le_bytes());
    out.extend_from_slice(&RATE.to_le_bytes());
    out.extend_from_slice(&(RATE * 4).to_le_bytes());
    out.extend_from_slice(&4u16.to_le_bytes());
    out.extend_from_slice(&16u16.to_le_bytes());
    out.extend_from_slice(b"data");
    out.extend_from_slice(&data.to_le_bytes());
    for i in 0..frames {
        let phase = 2.0 * std::f64::consts::PI * (i % 100) as f64 / 100.0;
        let sample = (phase.sin() * 16_384.0) as i16;
        out.extend_from_slice(&sample.to_le_bytes());
        out.extend_from_slice(&sample.to_le_bytes());
    }
    out
}

fn reader(bytes: Vec<u8>) -> Result<Format, String> {
    let source = Box::new(Cursor::new(bytes));
    let stream = symphonia::core::io::MediaSourceStream::new(source, Default::default());
    symphonia::default::get_probe()
        .probe(
            &symphonia::core::formats::probe::Hint::new(),
            stream,
            Default::default(),
            Default::default(),
        )
        .map_err(|e| e.to_string())
}

fn read_header(bytes: Vec<u8>) -> Result<(File, TrackHeader), OpenFault> {
    let format = reader(bytes).map_err(OpenFault::Reader)?;
    let track = format
        .default_track(symphonia::core::formats::TrackType::Audio)
        .ok_or(OpenFault::NoTrack)?;
    let params = track
        .codec_params
        .as_ref()
        .and_then(|cp| cp.audio())
        .ok_or(OpenFault::NoParams)?;
    let codec = symphonia::default::get_codecs()
        .make_audio_decoder(params, &Default::default())
        .map_err(|e| OpenFault::Codec(e.to_string()))?;
    let span = Span {
        time_base: track.time_base.map(|tb| (tb.numer.get(), tb.denom.get())),
        ticks: track.duration.map(|d| d.get()),
    };
    let header = TrackHeader {
        track_id: track.id,
        codec: Codec::Other,
        sample_rate: params.sample_rate,
        channels: params.channels.as_ref().map(|c| c.count()),
        n_frames: track.num_frames,
        track: span,
        media: Span { time_base: None, ticks: None },
        duration_estimated: false,
    };
    let track_id = track.id;
    Ok((File { format, codec, track_id }, header))
}

fn open(bytes: Vec<u8>) -> Result<(File, VoxDecoder), VoxError> {
    let (file, header) = match read_header(bytes) {
        Ok((file, header)) => (Some(file), Ok(header)),
        Err(fault) => (None, Err(fault)),
    };
    let decoder = VoxDecoder::open(NAME.to_string(), header, None, ReplayGainInfo::default())?;
    Ok((file.unwrap(), decoder))
}

fn next_packet(file: &mut File, decoder: &mut VoxDecoder) -> Result<Option<Vec<u32>>, VoxError> {
    loop {
        let (read, packet) = match file.format.next_packet() {
            Ok(Some(packet)) => (Read::Packet(packet.track_id), Some(packet)),
            Ok(None) => (Read::End, None),
            Err(e) => (Read::Failed(Fault::Fatal(e.to_string())), None),
        };
        match decoder.next_packet(read)? {
            AfterRead::Decode => {}
            AfterRead::Over => return Ok(None),
            _ => continue,
        }
        let decoded = match file.codec.decode(&packet.unwrap()) {
            Ok(audio) => {
                let mut samples: Vec<f32> = Vec::new();
                audio.copy_to_vec_interleaved::<f32>(&mut samples);
                Decoded::Samples(samples.iter().map(|s| s.to_bits()).collect())
            }
            Err(e) => Decoded::Failed(Fault::Corrupt(e.to_string())),
        };
        match decoder.packet_decoded(decoded)? {
            AfterDecode::Play(samples) => return Ok(Some(samples)),
            AfterDecode::Over => return Ok(None),
            _ => continue,
        }
    }
}

/// Asks the container to jump.
fn jump(file: &mut File, micros: u64) -> Result<i64, String> {
    let to = symphonia::core::formats::SeekTo::Time {
        time: symphonia::core::units::Time::from_micros_u64(micros),
        track_id: Some(file.track_id),
    };
    file.format
        .seek(symphonia::core::formats::SeekMode::Coarse, to)
        .map(|seeked| seeked.actual_ts.get())
        .map_err(|e| e.to_string())
}

/// Seeks, and returns where that landed, in seconds.
fn seek(file: &mut File, decoder: &VoxDecoder, secs: u64) -> f64 {
    let target = secs * 1_000_000;
    decoder.seek(target).unwrap();
    let landing = match decoder.jumped(target, jump(file, target)) {
        AfterJump::Landed(landing) => landing,
        AfterJump::Reopen => decoder.jumped_again(target, Ok(jump(file, target))).unwrap(),
    };
    landing.units as f64 / landing.per_second as f64
}

#[test]
fn open_reports_audio_format() {
    let (_, d) = open(wav(SECS)).ok().unwrap();
    assert_eq!(d.info.sample_rate, 44_100);
    assert_eq!(d.info.channels, 2);
    assert_eq!(d.path(), NAME);
}

#[test]
fn open_nonexistent_errors() {
    let missing = Err(OpenFault::Reader("Failed to open file: gone.mp3".to_string()));
    let opened =
        VoxDecoder::open("gone.mp3".to_string(), missing, None, ReplayGainInfo::default());
    assert!(opened.is_err());
}

#[test]
fn open_non_audio_errors() {
    let text = b"this is not audio, however long one reads on".to_vec();
    assert!(matches!(open(text), Err(VoxError::Decoder(_))));
}

#[test]
fn playable_duration_is_positive() {
    let (_, d) = open(wav(SECS)).ok().unwrap();
    assert_eq!(d.playable_duration(), Some(8_000_000));
}

#[test]
fn next_packet_yields_interleaved_frames() {
    let (mut file, mut d) = open(wav(SECS)).ok().unwrap();
    let buf = next_packet(&mut file, &mut d).unwrap().unwrap();
    assert!(!buf.is_empty());
    assert_eq!(buf.len() % d.info.channels, 0);
    assert_eq!(d.frames_emitted() as usize, buf.len() / 2);
}

#[test]
fn seek_lands_near_target() {
    let (mut file, d) = open(wav(SECS)).ok().unwrap();
    let landed = seek(&mut file, &d, 5);
    assert!((landed - 5.0).abs() < 0.5, "landed at {landed}");
}

#[test]
fn seek_backward_returns_to_start() {
    let (mut file, d) = open(wav(SECS)).ok().unwrap();
    seek(&mut file, &d, 5);
    let landed = seek(&mut file, &d, 0);
    assert!(landed < 0.5, "landed at {landed}");
}

#[test]
fn skip_samples_advances_past_request() {
    let (mut file, mut d) = open(wav(SECS)).ok().unwrap();
    let mut skipped = 0;
    let mut more = VoxDecoder::has_to_skip(1000, skipped);
    while more {
        let samples = next_packet(&mut file, &mut d).unwrap().map(|p| p.len());
        (skipped, more) = d.skip_samples(1000, skipped, samples);
    }
    assert!(skipped >= 1000, "skipped {skipped}");
}

// -- Waveforms ------------------------------------------------

fn add_energy(acc: u64, mono: u64) -> u64 {
    let mono = f64::from_bits(mono);
    (f64::from_bits(acc) + mono * mono).to_bits()
}

fn keep_peak(acc: u64, mono: u64) -> u64 {
    f64::from_bits(acc).max(f64::from_bits(mono).abs()).to_bits()
}

fn pool(metric: BinMetric, part: &Vec<Bucket>) -> u32 {
    let value = match metric {
        BinMetric::Rms => {
            let energy: f64 = part.iter().map(|b| f64::from_bits(b.acc)).sum();
            let frames: u64 = part.iter().map(|b| b.count).sum();
            (energy / frames as f64).sqrt()
        }
        BinMetric::Peak => part.iter().map(|b| f64::from_bits(b.acc)).fold(0.0, f64::max),
    };
    (value as f32).to_bits()
}

fn generate(bytes: Vec<u8>, bins: usize, metric: BinMetric) -> Result<Waveform, VoxError> {
    let (mut file, mut d) = open(bytes)?;
    let mut buckets = FineBuckets::new();
    let mut failure = None;
    loop {
        match next_packet(&mut file, &mut d) {
            Ok(Some(packet)) => {
                let monos: Vec<u64> = packet
                    .chunks_exact(2)
                    .map(|frame| {
                        let sum = f32::from_bits(frame[0]) + f32::from_bits(frame[1]);
                        ((sum / 2.0) as f64).to_bits()
                    })
                    .collect();
                buckets.push_all(&monos, |acc, mono| {
                    metric.accumulate(acc, mono, add_energy, keep_peak)
                });
            }
            Ok(None) => break,
            Err(e) => {
                failure = Some(e);
                break;
            }
        }
    }
    Waveform::generate(buckets, failure, bins, d.info.sample_rate, |part| pool(metric, part))
}

fn bins(n: usize, metric: BinMetric) -> Vec<f32> {
    let wave = generate(wav(2), n, metric).unwrap();
    wave.bins.iter().map(|v| f32::from_bits(*v)).collect()
}

fn average(values: &[f32]) -> f32 {
    values.iter().sum::<f32>() / values.len() as f32
}

#[test]
fn produces_requested_bin_count() {
    assert_eq!(bins(500, BinMetric::Rms).len(), 500);
}

#[test]
fn sine_has_steady_nonzero_amplitude() {
    let wf = bins(200, BinMetric::Rms);
    assert!(wf.iter().all(|&v| (0.0..=1.0).contains(&v)), "out of range");
    let avg = average(&wf);
    assert!(avg > 0.05, "expected audible RMS, got avg {avg}");
    assert!(
        wf.iter().all(|&v| (v - avg).abs() < 0.2),
        "a steady sine should not vary wildly across bins"
    );
}

#[test]
fn zero_bins_is_empty() {
    assert!(bins(0, BinMetric::Rms).is_empty());
}

#[test]
fn reports_covered_duration() {
    let wave = generate(wav(2), 500, BinMetric::Rms).unwrap();
    assert_eq!(wave.duration, 2_000_000);
}

#[test]
fn peak_exceeds_rms_for_a_sine() {
    let rms = average(&bins(200, BinMetric::Rms));
    let peak = average(&bins(200, BinMetric::Peak));
    assert!(peak > rms * 1.3, "peak {peak} should exceed rms {rms} (~1.41x for a sine)");
}

#[test]
fn undecodable_file_errors() {
    let err = generate(b"plain text and nothing else".to_vec(), 100, BinMetric::Rms);
    assert!(matches!(err, Err(VoxError::Decoder(_) | VoxError::FileOpen(_))));
}
