use loudgainer::error::Error;
use loudgainer::measure::{ChannelPeak, Measurement};
use loudgainer::replay_gain::{
    album_allowed, album_rg, loudness_reference, loudness_to_gain, track_rg, ReplayGain,
};

fn record(gain: i64, peak: i64, peak_db: i64) -> ReplayGain {
    ReplayGain {
        gain,
        peak,
        peak_db,
        loudness_range: 700_000,
        loudness_reference: 0,
        loudness: -2_300_000,
    }
}

#[test]
fn reference_loudness_yields_zero_gain() {
    // -18 LUFS with no pre-gain nets to zero.
    assert_eq!(loudness_to_gain(-1_800_000, 0), 0);
}

#[test]
fn minus_23_lufs_with_pre_gain_nets_to_zero() {
    // The -23 LUFS convention: pre-gain -5 cancels the 5 dB offset.
    assert_eq!(loudness_to_gain(-2_300_000, -500_000), 0);
}

#[test]
fn loudness_to_gain_example() {
    // A -20 LUFS track needs +2 dB to reach -18 LUFS.
    assert_eq!(loudness_to_gain(-2_000_000, 0), 200_000);
    assert_eq!(loudness_to_gain(-2_000_000, -500_000), -300_000);
}

#[test]
fn loudness_reference_is_negated_pre_gain() {
    assert_eq!(loudness_reference(-500_000), 500_000);
    assert_eq!(loudness_reference(0), 0);
}

#[test]
fn clipper_within_ceiling_is_noop() {
    // Predicted peak -2 dBTP is under the -1 dBTP ceiling: nothing changes.
    let rg = record(0, 794_328_234, -200_000);
    let (out, warn) = rg.clipper(-100_000, true, true);
    assert_eq!(out, rg);
    assert!(!warn);
}

#[test]
fn clipper_prevents_clipping() {
    // A full-scale track (true peak 1.0, 0 dBTP) with gain 0 against a
    // -1 dBTP ceiling: the gain is pulled down to exactly -1 dB.
    let rg = record(0, 1_000_000_000, 0);
    let (out, warn) = rg.clipper(-100_000, false, true);
    assert!(out.gain < 0);
    assert_eq!(out.gain, -100_000);
    assert!(!warn);
    // All other fields are untouched.
    assert_eq!(out.peak, rg.peak);
    assert_eq!(out.peak_db, rg.peak_db);
    assert_eq!(out.loudness_range, rg.loudness_range);
    assert_eq!(out.loudness_reference, rg.loudness_reference);
    assert_eq!(out.loudness, rg.loudness);
    // Recomputing the predicted peak with the corrected gain lands on the
    // ceiling's linear amplitude.
    let corrected_gain_db = out.gain as f64 / 100_000.0;
    let predicted = 10f64.powf(corrected_gain_db / 20.0) * 1.0;
    let ceiling_amplitude = 10f64.powf(-1.0 / 20.0);
    assert!((predicted - ceiling_amplitude).abs() < 1e-9);
}

#[test]
fn clipper_is_idempotent() {
    let rg = record(350_000, 1_000_000_000, 0);
    let (once, _) = rg.clipper(-100_000, false, true);
    let (twice, warn) = once.clipper(-100_000, false, true);
    assert_eq!(twice, once);
    assert!(!warn);
}

#[test]
fn clipper_warns_without_preventing() {
    // Clipping predicted, prevention off, warning on: gain is untouched and
    // the warning is due.
    let rg = record(200_000, 1_000_000_000, 0);
    let (out, warn) = rg.clipper(-100_000, true, false);
    assert_eq!(out, rg);
    assert!(warn);
}

#[test]
fn clipper_silent_without_flags() {
    let rg = record(200_000, 1_000_000_000, 0);
    let (out, warn) = rg.clipper(-100_000, false, false);
    assert_eq!(out, rg);
    assert!(!warn);
}

#[test]
fn track_rg_from_measurement() {
    let m = Measurement {
        loudness: -2_300_000,
        loudness_range: 700_000,
        peaks: vec![
            ChannelPeak { amplitude: 800_000_000, dbtp: -193_820 },
            ChannelPeak { amplitude: 900_000_000, dbtp: -91_515 },
        ],
    };
    let rg = track_rg(&m, 0);
    assert_eq!(rg.gain, 500_000);
    assert_eq!(rg.peak, 900_000_000);
    assert_eq!(rg.peak_db, -91_515);
    assert_eq!(rg.loudness_range, 700_000);
    assert_eq!(rg.loudness_reference, 0);
    assert_eq!(rg.loudness, -2_300_000);
}

#[test]
fn album_peak_is_maximum_of_track_peaks() {
    let t1 = record(0, 700_000_000, -309_804);
    let t2 = record(0, 990_000_000, -8_730);
    let t3 = record(0, 850_000_000, -141_162);
    let album = album_rg(&vec![t1, t2, t3], -2_000_000, 600_000, 0);
    assert_eq!(album.peak, 990_000_000);
    assert_eq!(album.peak_db, -8_730);
    assert_eq!(album.gain, 200_000);
    assert_eq!(album.loudness_range, 600_000);
    assert_eq!(album.loudness, -2_000_000);
}

#[test]
fn album_peak_ignores_track_order() {
    let t1 = record(0, 700_000_000, -309_804);
    let t2 = record(0, 990_000_000, -8_730);
    let t3 = record(0, 850_000_000, -141_162);
    let a = album_rg(&vec![t1, t2, t3], -2_000_000, 600_000, 0);
    let b = album_rg(&vec![t3, t1, t2], -2_000_000, 600_000, 0);
    assert_eq!(a.peak, b.peak);
    assert_eq!(a.peak_db, b.peak_db);
}

#[test]
fn album_requires_complete_batch() {
    let ok: Vec<Result<i32, Error>> = vec![Ok(1), Ok(2)];
    assert!(album_allowed(&ok));
    let partial: Vec<Result<i32, Error>> = vec![Ok(1), Err(Error::DecodeUnavailable)];
    assert!(!album_allowed(&partial));
    let empty: Vec<Result<i32, Error>> = vec![];
    assert!(album_allowed(&empty));
}

#[test]
fn error_descriptions_are_distinct() {
    let errors = [
        Error::UnsupportedContainer,
        Error::UnsupportedCodec,
        Error::DecodeUnavailable,
        Error::DomainMismatch,
        Error::InvalidChannelCount,
        Error::InvalidSampleRate,
        Error::UnsupportedConfiguration,
        Error::InsufficientData,
    ];
    for (i, a) in errors.iter().enumerate() {
        assert!(!a.describe().is_empty());
        for b in errors.iter().skip(i + 1) {
            assert_ne!(a.describe(), b.describe());
        }
    }
}
