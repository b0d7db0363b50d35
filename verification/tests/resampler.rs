use rubato::audioadapter_buffers::direct::InterleavedSlice;
use rubato::{Fft, FixedSync, Resampler};
use voxio::error::VoxError;
use voxio::resampler::{VoxResampler, RESAMPLER_CHUNK_SIZE, RESAMPLER_SUBCHUNK_SIZE};

type Engine = Fft<f32>;

fn build(input_rate: u32, output_rate: u32, channels: usize) -> Result<Engine, String> {
    Fft::<f32>::new(
        input_rate as usize,
        output_rate as usize,
        RESAMPLER_CHUNK_SIZE,
        RESAMPLER_SUBCHUNK_SIZE,
        channels,
        FixedSync::Input,
    )
    .map_err(|e| e.to_string())
}

fn resampler(
    input_rate: u32,
    output_rate: u32,
    channels: usize,
) -> Result<Option<VoxResampler<Engine>>, VoxError> {
    let built = if VoxResampler::<Engine>::is_needed(input_rate, output_rate) {
        Some(build(input_rate, output_rate, channels))
    } else {
        None
    };
    VoxResampler::new(input_rate, output_rate, channels, built)
}

/// Converts one chunk.
fn convert(rs: &mut VoxResampler<Engine>, block: &[u32]) -> Result<Vec<u32>, String> {
    let channels = rs.channels;
    let engine = &mut rs.resampler;
    let samples: Vec<f32> = block.iter().map(|s| f32::from_bits(*s)).collect();
    let frames = engine.input_frames_next();
    let out_max = engine.output_frames_max();
    let mut buf = vec![0.0f32; out_max * channels];
    let out_frames = {
        let input = InterleavedSlice::new(&samples, channels, frames).map_err(|e| e.to_string())?;
        let mut output = InterleavedSlice::new_mut(&mut buf, channels, out_max)
            .map_err(|e| e.to_string())?;
        engine
            .process_into_buffer(&input, &mut output, None)
            .map_err(|e| e.to_string())?
            .1
    };
    Ok(buf[..out_frames * channels].iter().map(|s| s.to_bits()).collect())
}

/// Converts every whole chunk of `pending`.
fn blocks(rs: &mut VoxResampler<Engine>, pending: &mut Vec<u32>) -> Vec<Vec<u32>> {
    let needed = rs.resampler.input_frames_next();
    let mut blocks = Vec::new();
    while let Some(chunk) = rs.process(pending, needed) {
        let converted = convert(rs, &chunk);
        blocks.push(rs.processed(pending, needed, converted).unwrap());
    }
    blocks
}

/// Feeds `pending` through and counts the samples that come out.
fn process(rs: &mut VoxResampler<Engine>, pending: &mut Vec<u32>) -> usize {
    blocks(rs, pending).iter().map(|b| b.len()).sum()
}

fn flush(rs: &mut VoxResampler<Engine>, pending: &mut Vec<u32>) -> Option<Vec<u32>> {
    let needed = rs.resampler.input_frames_next();
    let ratio = rs.resampler.resample_ratio();
    let frames = rs.flush(pending, needed)?;
    let expected = (ratio * frames as f64).ceil() as usize;
    let mut flushed = blocks(rs, pending);
    assert_eq!(flushed.len(), 1);
    rs.flushed(flushed.remove(0), expected)
}

/// Interleaved input: a small repeating ramp, enough to count frames out.
fn ramp(frames: usize, channels: usize) -> Vec<u32> {
    (0..frames * channels)
        .map(|i| ((i % 100) as f32 * 0.01).to_bits())
        .collect()
}

#[test]
fn none_when_rates_match() {
    assert!(resampler(44100, 44100, 2).unwrap().is_none());
}

#[test]
fn some_when_rates_differ() {
    assert!(resampler(44100, 48000, 2).unwrap().is_some());
}

#[test]
fn input_rate_getter() {
    let rs = resampler(44100, 48000, 2).unwrap().unwrap();
    assert_eq!(rs.input_rate(), 44100);
}

#[test]
fn upsample_produces_more_frames() {
    let mut rs = resampler(44100, 48000, 2).unwrap().unwrap();
    let (channels, in_frames) = (2, 44100); // one second
    let mut pending = ramp(in_frames, channels);

    let out_samples = process(&mut rs, &mut pending);

    let out_frames = out_samples / channels;
    let expected = in_frames as f64 * 48000.0 / 44100.0;
    // FFT latency eats a little; stay within a loose band.
    assert!(
        (out_frames as f64) > expected * 0.9 && (out_frames as f64) < expected * 1.1,
        "got {out_frames} frames, expected ~{expected}"
    );
    // Leftover is always less than one input chunk.
    assert!(pending.len() < RESAMPLER_CHUNK_SIZE * channels);
}

#[test]
fn downsample_produces_fewer_frames() {
    let mut rs = resampler(48000, 44100, 2).unwrap().unwrap();
    let (channels, in_frames) = (2, 48000);
    let mut pending = ramp(in_frames, channels);

    let out_samples = process(&mut rs, &mut pending);

    let out_frames = out_samples / channels;
    let expected = in_frames as f64 * 44100.0 / 48000.0;
    assert!(
        (out_frames as f64) > expected * 0.9 && (out_frames as f64) < expected * 1.1,
        "got {out_frames} frames, expected ~{expected}"
    );
}

#[test]
fn process_leaves_partial_chunk_untouched() {
    let mut rs = resampler(44100, 48000, 2).unwrap().unwrap();
    // Fewer samples than one chunk: nothing consumed or emitted.
    let mut pending = ramp(100, 2);
    let out_samples = process(&mut rs, &mut pending);
    assert_eq!(out_samples, 0);
    assert_eq!(pending.len(), 100 * 2);
}

#[test]
fn flush_empty_is_noop() {
    let mut rs = resampler(44100, 48000, 2).unwrap().unwrap();
    let mut pending = Vec::new();
    let out_samples = flush(&mut rs, &mut pending).map_or(0, |b| b.len());
    assert_eq!(out_samples, 0);
}

#[test]
fn mono_channel_upsamples() {
    let mut rs = resampler(22050, 44100, 1).unwrap().unwrap();
    let mut pending = ramp(22050, 1);
    let out_samples = process(&mut rs, &mut pending);
    assert!(
        out_samples > 22050,
        "2x upsample should roughly double frames"
    );
}

#[test]
fn flush_emits_only_real_tail() {
    let mut rs = resampler(44100, 48000, 2).unwrap().unwrap();
    let mut pending = ramp(100, 2); // 100 real frames in
    let out_frames = flush(&mut rs, &mut pending).map_or(0, |b| b.len() / 2);

    let expected = (100.0 * 48000.0 / 44100.0_f64).ceil() as usize; // about 109
    assert_eq!(
        out_frames, expected,
        "must emit real tail, not a padded chunk"
    );
    assert!(pending.is_empty());
}

#[test]
fn engines_are_built_only_for_other_rates() {
    assert!(!VoxResampler::<()>::is_needed(44100, 44100));
    assert!(VoxResampler::<()>::is_needed(44100, 48000));
    let made = VoxResampler::<u8>::new(8000, 8000, 1, Some(Ok(7))).unwrap();
    assert!(made.is_none());
    let made = VoxResampler::<u8>::new(8000, 44100, 3, Some(Ok(7))).unwrap().unwrap();
    assert_eq!((made.resampler, made.input_rate, made.channels), (7, 8000, 3));
}

#[test]
fn failed_build_is_reported() {
    let made = VoxResampler::<()>::new(8000, 44100, 1, Some(Err("no luck".to_string())));
    assert_eq!(made.err(), Some(VoxError::Resampler("no luck".to_string())));
}

fn stereo() -> VoxResampler<()> {
    VoxResampler { resampler: (), input_rate: 1, channels: 2 }
}

#[test]
fn chunks_come_from_the_front_and_leave_once_converted() {
    let rs = stereo();
    let mut pending: Vec<u32> = (0..11).collect();
    let mut chunks = Vec::new();
    while let Some(chunk) = rs.process(&pending, 2) {
        // Asking again hands out the same chunk.
        assert_eq!(rs.process(&pending, 2), Some(chunk.clone()));
        assert_eq!(rs.processed(&mut pending, 2, Ok(vec![chunk[3]])), Ok(vec![chunk[3]]));
        chunks.push(chunk);
    }
    assert_eq!(chunks, [vec![0, 1, 2, 3], vec![4, 5, 6, 7]]);
    assert_eq!(pending, [8, 9, 10]);
}

#[test]
fn failed_chunk_keeps_the_rest_pending() {
    let rs = stereo();
    let mut pending: Vec<u32> = (4..11).collect();
    let failed = rs.processed(&mut pending, 2, Err("bad chunk".to_string()));
    assert_eq!(failed, Err(VoxError::Resampler("bad chunk".to_string())));
    assert_eq!(pending, [4, 5, 6, 7, 8, 9, 10]);
}

#[test]
fn flush_pads_with_silence() {
    let rs = stereo();
    let mut pending: Vec<u32> = vec![5, 6, 7];
    // One frame is whole.
    assert_eq!(rs.flush(&mut pending, 3), Some(1));
    assert_eq!(pending, [5, 6, 7, 0, 0, 0]);
    assert_eq!(rs.process(&pending, 3), Some(vec![5, 6, 7, 0, 0, 0]));

    let mut pending: Vec<u32> = Vec::new();
    assert_eq!(rs.flush(&mut pending, 3), None);
    assert!(pending.is_empty());
}

#[test]
fn flushed_blocks_are_cut_to_what_the_input_is_worth() {
    let rs = stereo();
    assert_eq!(rs.flushed((10..20).collect(), 2), Some(vec![10, 11, 12, 13]));
    assert_eq!(rs.flushed((10..15).collect(), 9), Some(vec![10, 11, 12, 13]));
    assert_eq!(rs.flushed((10..20).collect(), 0), None);
    assert_eq!(rs.flushed(vec![1], 3), None);
}
