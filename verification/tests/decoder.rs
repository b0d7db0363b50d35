use voxio::decoder::{
    frames_of, is_estimated, open_error, opus_params, reopen_error, AfterDecode, AfterJump, AfterRead,
    Codec, Decoded, Fault, Landing, OpenFault, Probe, ProbeRead, Read, ReopenFault, Span, TrackHeader,
    VoxDecoder,
};
use voxio::error::VoxError;
use voxio::replaygain::ReplayGainInfo;

fn header() -> TrackHeader {
    TrackHeader {
        track_id: 3,
        codec: Codec::Mp3,
        sample_rate: Some(44_100),
        channels: Some(2),
        n_frames: Some(88_200),
        track: Span { time_base: Some((1, 44_100)), ticks: None },
        media: Span { time_base: None, ticks: None },
        duration_estimated: false,
    }
}

fn untagged() -> ReplayGainInfo {
    ReplayGainInfo::default()
}

fn open(header: TrackHeader) -> VoxDecoder {
    VoxDecoder::open("a.mp3".to_string(), Ok(header), None, untagged())
        .ok()
        .unwrap()
}

#[test]
fn header_alone_gives_the_format() {
    assert!(!header().needs_probe());
    let tags = ReplayGainInfo { track_gain_db: Some(9), ..untagged() };
    let d = VoxDecoder::open("a.mp3".to_string(), Ok(header()), Some((8_000, 9)), tags)
        .ok()
        .unwrap();
    assert_eq!(d.path(), "a.mp3");
    assert_eq!((d.info.sample_rate, d.info.channels), (44_100, 2));
    assert_eq!(d.info.replaygain.track_gain_db, Some(9));
    assert_eq!(d.playable_duration(), Some(2_000_000));
    assert_eq!(d.seek_preroll_frames(), 0);
    assert_eq!(d.frames_emitted(), 0);
    assert!(!d.duration_estimated());
}

#[test]
fn probing_stops_at_the_first_decoded_packet() {
    let header = TrackHeader { channels: None, codec: Codec::Vorbis, ..header() };
    assert!(header.needs_probe());
    let mut probe = Probe::new();
    assert_eq!(probe.looked_at(ProbeRead::Foreign), None);
    assert_eq!(probe.looked_at(ProbeRead::Corrupt), None);
    let found = probe.looked_at(ProbeRead::Format(48_000, 6));
    assert_eq!(found, Some(Some((48_000, 6))));
    assert_eq!(probe.looked, 2);
    let d = VoxDecoder::open("b.ogg".to_string(), Ok(header), found.unwrap(), untagged())
        .ok()
        .unwrap();
    assert_eq!((d.info.sample_rate, d.info.channels), (48_000, 6));
    // 80 ms of Vorbis pre-roll.
    assert_eq!(d.seek_preroll_frames(), 3_840);
}

#[test]
fn probing_gives_up_after_ten_packets() {
    let header = TrackHeader { sample_rate: None, ..header() };
    assert!(header.needs_probe());
    let mut probe = Probe::new();
    for _ in 0..9 {
        assert_eq!(probe.looked_at(ProbeRead::Corrupt), None);
    }
    let mut last = probe;
    assert_eq!(last.looked_at(ProbeRead::Format(8_000, 1)), Some(Some((8_000, 1))));
    let found = probe.looked_at(ProbeRead::Corrupt);
    assert_eq!(found, Some(None));
    let opened = VoxDecoder::open("c".to_string(), Ok(header), found.unwrap(), untagged());
    assert_eq!(
        opened.err(),
        Some(VoxError::Decoder(
            "Could not determine sample_rate and/or channels".to_string()
        ))
    );
}

#[test]
fn probing_ends_with_the_stream() {
    assert_eq!(Probe::new().looked_at(ProbeRead::Over), Some(None));
}

#[test]
fn length_falls_back_to_durations() {
    // The container's count comes first.
    assert_eq!(open(header()).info.n_frames, Some(88_200));
    // Then the track's duration: 3 s in units of 1/1000 s.
    let d = open(TrackHeader {
        n_frames: None,
        track: Span { time_base: Some((1, 1_000)), ticks: Some(3_000) },
        media: Span { time_base: Some((1, 1)), ticks: Some(9) },
        ..header()
    });
    assert_eq!(d.info.n_frames, Some(132_300));
    // Then the file's.
    let d = open(TrackHeader {
        n_frames: None,
        track: Span { time_base: Some((1, 1_000)), ticks: None },
        media: Span { time_base: Some((3, 2)), ticks: Some(2) },
        ..header()
    });
    assert_eq!(d.info.n_frames, Some(132_300));
    // A time base with a zero in it, or more ticks than a timestamp holds, says
    // nothing.
    for track in [
        Span { time_base: Some((1, 0)), ticks: Some(5) },
        Span { time_base: Some((0, 1)), ticks: Some(5) },
        Span { time_base: Some((1, 1)), ticks: Some(u64::MAX) },
    ] {
        let d = open(TrackHeader { n_frames: None, track, ..header() });
        assert_eq!(d.info.n_frames, None);
        assert_eq!(d.playable_duration(), None);
    }
}

#[test]
fn open_faults_have_their_texts() {
    let text = |fault| match open_error(fault) {
        VoxError::Decoder(text) => text,
        other => panic!("{other:?}"),
    };
    assert_eq!(text(OpenFault::Reader("x".into())), "Format reader error: x");
    assert_eq!(text(OpenFault::NoTrack), "no audio track");
    assert_eq!(text(OpenFault::NoParams), "no audio codec params");
    assert_eq!(text(OpenFault::Codec("y".into())), "y");
    let text = |fault| match reopen_error(fault) {
        VoxError::Seek(text) => text,
        other => panic!("{other:?}"),
    };
    assert_eq!(text(ReopenFault::Reader("x".into())), "Failed to reopen for seek: x");
    assert_eq!(text(ReopenFault::NoTrack), "track not found on reopen");
    assert_eq!(text(ReopenFault::NoParams), "no audio params on reopen");
    assert_eq!(text(ReopenFault::Codec("y".into())), "y");
    let opened = VoxDecoder::open("d".to_string(), Err(OpenFault::NoTrack), None, untagged());
    assert_eq!(opened.err(), Some(VoxError::Decoder("no audio track".to_string())));
}

#[test]
fn only_headerless_opus_gets_a_layout() {
    assert!(opus_params(Codec::Opus, None));
    assert!(!opus_params(Codec::Opus, Some(1)));
    assert!(!opus_params(Codec::Mp3, None));
}

#[test]
fn foreign_packets_are_passed_over() {
    let mut d = open(header());
    assert_eq!(d.next_packet(Read::Packet(4)), Ok(AfterRead::Again));
    assert_eq!(d.next_packet(Read::Packet(3)), Ok(AfterRead::Decode));
    assert_eq!(d.next_packet(Read::End), Ok(AfterRead::Over));
}

#[test]
fn fourth_read_failure_in_a_row_is_fatal() {
    let mut d = open(header());
    for _ in 0..3 {
        assert_eq!(
            d.next_packet(Read::Failed(Fault::Io("slow disk".into()))),
            Ok(AfterRead::Again)
        );
    }
    assert_eq!(
        d.next_packet(Read::Failed(Fault::Io("slow disk".into()))),
        Err(VoxError::Decoder("io retries exhausted: slow disk".into()))
    );
    assert_eq!(d.take_recovered(), ["slow disk", "slow disk", "slow disk"]);
    assert!(d.take_recovered().is_empty());
}

#[test]
fn corrupt_packets_never_end_a_track() {
    let mut d = open(header());
    let corrupt = || Decoded::Failed(Fault::Corrupt("crc".into()));
    for _ in 0..100 {
        assert_eq!(d.packet_decoded(corrupt()), Ok(AfterDecode::Again));
    }
    assert_eq!(d.take_recovered().len(), 100);
    assert_eq!(
        d.packet_decoded(Decoded::Samples(vec![1, 2, 3, 4, 5])),
        Ok(AfterDecode::Play(vec![1, 2, 3, 4, 5]))
    );
    assert_eq!(d.frames_emitted(), 2);
    // At the end of the file they lead to its end.
    for _ in 0..33 {
        assert_eq!(d.next_packet(Read::Packet(d.track_id)), Ok(AfterRead::Decode));
        assert_eq!(d.packet_decoded(corrupt()), Ok(AfterDecode::Again));
    }
    assert_eq!(d.next_packet(Read::End), Ok(AfterRead::Over));
}

#[test]
fn good_packet_restores_the_retries() {
    let mut d = open(header());
    let slow = || Read::Failed(Fault::Io("slow disk".into()));
    for _ in 0..2 {
        for _ in 0..3 {
            assert_eq!(d.next_packet(slow()), Ok(AfterRead::Again));
        }
        d.packet_decoded(Decoded::Samples(vec![1, 2])).unwrap();
    }
}

#[test]
fn only_a_headerless_mp3_is_estimated() {
    assert!(is_estimated(Codec::Mp3, None, None));
    assert!(!is_estimated(Codec::Mp3, Some(1105), None));
    assert!(!is_estimated(Codec::Mp3, None, Some(0)));
    assert!(!is_estimated(Codec::Aac, None, None));
}

#[test]
fn other_faults_end_reset_or_fail() {
    let mut d = open(header());
    assert_eq!(
        d.next_packet(Read::Failed(Fault::UnexpectedEof)),
        Ok(AfterRead::Over)
    );
    assert_eq!(
        d.next_packet(Read::Failed(Fault::ResetRequired)),
        Ok(AfterRead::ResetAndAgain)
    );
    assert_eq!(
        d.packet_decoded(Decoded::Failed(Fault::UnexpectedEof)),
        Ok(AfterDecode::Over)
    );
    assert_eq!(
        d.packet_decoded(Decoded::Failed(Fault::ResetRequired)),
        Ok(AfterDecode::ResetAndAgain)
    );
    assert_eq!(
        d.packet_decoded(Decoded::Failed(Fault::Fatal("limit".into()))),
        Err(VoxError::Decoder("limit".into()))
    );
    // Empty packets are passed over without touching the counts.
    assert_eq!(d.packet_decoded(Decoded::Samples(vec![])), Ok(AfterDecode::Again));
}

#[test]
fn skipping_counts_whole_frames_and_overshoots() {
    let d = open(header());
    assert_eq!(d.skip_samples(1000, 0, Some(1152)), (576, true));
    assert_eq!(d.skip_samples(1000, 576, Some(1152)), (1152, false));
    assert_eq!(d.skip_samples(1000, 576, None), (576, false));
    // Nothing is read where nothing has to go.
    assert!(!VoxDecoder::has_to_skip(0, 0));
    assert!(VoxDecoder::has_to_skip(1000, 999));
    assert!(!VoxDecoder::has_to_skip(1000, 1000));
    assert_eq!(frames_of(7, 2), 3);
    // No channels at all counts as one.
    assert_eq!(frames_of(7, 0), 7);
}

fn landed(units: i64, per_second: u32) -> Landing {
    Landing { units, per_second, needs_warmup: true }
}

#[test]
fn uncountable_seek_time_is_refused() {
    let d = open(header());
    let refused = Err(VoxError::Seek("invalid seek time".into()));
    assert_eq!(d.seek(i64::MAX as u64), refused);
    assert_eq!(d.seek(u64::MAX), refused);
    assert_eq!(d.seek(i64::MAX as u64 - 1), Ok(()));
    assert_eq!(d.seek(0), Ok(()));
}

#[test]
fn seek_reports_the_time_of_the_timestamp() {
    let d = open(header());
    let after = d.jumped(5_000_000, Ok(220_500));
    assert_eq!(after, AfterJump::Landed(landed(5_000_000_000, 1_000_000_000)));
    // Before the start stays before the start.
    let after = d.jumped(0, Ok(-1));
    assert_eq!(after, AfterJump::Landed(landed(-22_675, 1_000_000_000)));
    // Without a time base, timestamps count frames.
    let d = open(TrackHeader {
        track: Span { time_base: None, ticks: None },
        ..header()
    });
    let after = d.jumped(1, Ok(44_101));
    assert_eq!(after, AfterJump::Landed(landed(44_101, 44_100)));
    // A time base that cannot say: on target.
    let d = open(TrackHeader {
        track: Span { time_base: Some((u32::MAX, 1)), ticks: None },
        ..header()
    });
    let after = d.jumped(77, Ok(i64::MAX));
    assert_eq!(after, AfterJump::Landed(landed(77, 1_000_000)));
}

#[test]
fn failed_seek_reopens_once() {
    let d = open(header());
    assert_eq!(d.jumped(1_000_000, Err("no cues".to_string())), AfterJump::Reopen);
    let landing = d.jumped_again(1_000_000, Ok(Ok(44_100)));
    assert_eq!(landing, Ok(landed(1_000_000_000, 1_000_000_000)));

    let landing = d.jumped_again(1, Ok(Err("no cues".to_string())));
    assert_eq!(landing, Err(VoxError::Seek("no cues".into())));
    let landing = d.jumped_again(1, Err(ReopenFault::NoTrack));
    assert_eq!(landing, Err(VoxError::Seek("track not found on reopen".into())));
}
