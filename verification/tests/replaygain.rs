use voxio::replaygain::{
    parse_rg, read_replaygain, ReplayGainInfo, ReplayGainMode, RgTag, TrackTags,
};

fn number(value: &str) -> Option<f32> {
    parse_rg(value, |text| {
        let text: String = text.iter().collect();
        text.parse::<f32>().ok().map(|n| n.to_bits())
    })
    .map(f32::from_bits)
}

fn bits(value: f32) -> Option<u32> {
    Some(value.to_bits())
}

fn gain(rg: &ReplayGainInfo, mode: ReplayGainMode) -> f32 {
    f32::from_bits(rg.linear_gain(
        mode,
        |db| 10f32.powf(f32::from_bits(db) / 20.0).to_bits(),
        |raw, peak| f32::from_bits(raw).min(1.0 / f32::from_bits(peak)).to_bits(),
    ))
}

#[test]
fn parse_rg_tolerates_units() {
    assert_eq!(number("-6.0 dB"), Some(-6.0));
    assert_eq!(number("+2.35dB"), Some(2.35));
    assert_eq!(number("0.987654"), Some(0.987654));
    assert_eq!(number("garbage"), None);
}

#[test]
fn parse_rg_trims_white_space_on_both_sides_of_the_unit() {
    assert_eq!(number(" \t-3.5  dB \u{2003}"), Some(-3.5));
    assert_eq!(number(""), None);
    assert_eq!(number("   "), None);
    // Only what is at the end counts as a unit.
    assert_eq!(number("dB 3"), None);
}

#[test]
fn linear_gain_modes_and_fallbacks() {
    let rg = ReplayGainInfo {
        track_gain_db: bits(-6.0),
        track_peak: bits(0.5),
        album_gain_db: None,
        album_peak: None,
    };

    assert_eq!(gain(&rg, ReplayGainMode::Off), 1.0);
    let track = gain(&rg, ReplayGainMode::Track);
    assert!((track - 0.501).abs() < 0.001);
    // Album falls back to track tags when album tags are absent
    assert_eq!(gain(&rg, ReplayGainMode::Album), track);
    // No tags at all: unity
    assert_eq!(gain(&ReplayGainInfo::default(), ReplayGainMode::Track), 1.0);
}

#[test]
fn linear_gain_peak_clamps_amplification() {
    let rg = ReplayGainInfo {
        track_gain_db: bits(12.0), // ~3.98x, would clip
        track_peak: bits(0.8),
        album_gain_db: None,
        album_peak: None,
    };
    assert_eq!(gain(&rg, ReplayGainMode::Track), 1.0 / 0.8);
}

#[test]
fn unusable_peaks_do_not_clamp() {
    for peak in [0.0f32, -0.5, 1.000_001, f32::NAN, f32::INFINITY] {
        let rg = ReplayGainInfo {
            track_gain_db: bits(20.0),
            track_peak: bits(peak),
            ..ReplayGainInfo::default()
        };
        assert_eq!(gain(&rg, ReplayGainMode::Track), 10.0);
    }
    // The ends of the usable range do.
    for (peak, expected) in [(1.0f32, 1.0f32), (f32::MIN_POSITIVE, 10.0)] {
        let rg = ReplayGainInfo {
            track_gain_db: bits(20.0),
            track_peak: bits(peak),
            ..ReplayGainInfo::default()
        };
        assert_eq!(gain(&rg, ReplayGainMode::Track), expected);
    }
}

#[test]
fn default_mode_is_off() {
    assert_eq!(ReplayGainMode::default(), ReplayGainMode::Off);
}

#[test]
fn track_tags_override_media_tags_and_the_last_one_counts() {
    let media = vec![
        RgTag::TrackGain("1.0 dB".into()),
        RgTag::AlbumPeak("0.9".into()),
        RgTag::AlbumGain("5".into()),
    ];
    let per_track = vec![
        TrackTags { track_id: 7, tags: vec![RgTag::TrackGain("9".into())] },
        TrackTags {
            track_id: 2,
            tags: vec![
                RgTag::TrackGain("2.0 dB".into()),
                RgTag::Unrelated,
                RgTag::TrackPeak("0.25".into()),
                // Unparsable: empties the place.
                RgTag::AlbumGain("loud".into()),
            ],
        },
    ];
    let rg = read_replaygain(&media, &per_track, 2, |value: &String| {
        number(value.as_str()).map(|n| n.to_bits())
    });
    assert_eq!(rg.track_gain_db, bits(2.0));
    assert_eq!(rg.track_peak, bits(0.25));
    assert_eq!(rg.album_gain_db, None);
    assert_eq!(rg.album_peak, bits(0.9));
}
