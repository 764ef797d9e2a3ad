use loudgainer::audio::Domain;
use loudgainer::error::Error;
use loudgainer::measure::{
    ingest_entry, new_context, track_peak, AnalysisFlags, ChannelPeak, IngestEntry, Measurement,
};

#[test]
fn context_needs_at_least_one_channel() {
    let err = new_context(0, 44100, AnalysisFlags::all()).unwrap_err();
    assert_eq!(err, Error::InvalidChannelCount);
}

#[test]
fn context_needs_a_positive_sample_rate() {
    let err = new_context(2, 0, AnalysisFlags::all()).unwrap_err();
    assert_eq!(err, Error::InvalidSampleRate);
}

#[test]
fn context_needs_the_complete_analysis_set() {
    let partial = AnalysisFlags { integrated: true, loudness_range: false, true_peak: true };
    let err = new_context(2, 44100, partial).unwrap_err();
    assert_eq!(err, Error::UnsupportedConfiguration);
}

#[test]
fn valid_context_parameters_pass_through() {
    let params = new_context(2, 48000, AnalysisFlags::all()).unwrap();
    assert_eq!(params.channels, 2);
    assert_eq!(params.sample_rate, 48000);
}

#[test]
fn ingestion_follows_the_buffer_domain() {
    assert_eq!(ingest_entry(Domain::S16), IngestEntry::FramesI16);
    assert_eq!(ingest_entry(Domain::S32), IngestEntry::FramesI32);
    assert_eq!(ingest_entry(Domain::F32), IngestEntry::FramesF32);
    assert_eq!(ingest_entry(Domain::F64), IngestEntry::FramesF64);
}

#[test]
fn track_peak_is_the_channel_maximum() {
    let m = Measurement {
        loudness: -1_500_000,
        loudness_range: 300_000,
        peaks: vec![
            ChannelPeak { amplitude: 400_000_000, dbtp: -795_880 },
            ChannelPeak { amplitude: 650_000_000, dbtp: -374_173 },
            ChannelPeak { amplitude: 500_000_000, dbtp: -602_060 },
        ],
    };
    let p = track_peak(&m);
    assert_eq!(p.amplitude, 650_000_000);
    assert_eq!(p.dbtp, -374_173);
}
