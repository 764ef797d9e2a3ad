use loudgainer::detect::{
    choose_decode_path, classify_header, probe_failure_error, resolve_decode_failure,
    ContainerClass, DecodePath, FallbackOutcome, ProbeStage,
};
use loudgainer::error::Error;
use loudgainer::replay_gain::album_allowed;

#[test]
fn flac_signature_is_recognized() {
    // `fLaC` followed by the start of a STREAMINFO block.
    let header = [0x66u8, 0x4c, 0x61, 0x43, 0x00, 0x00, 0x00, 0x22, 0x10, 0x00];
    assert_eq!(classify_header(&header), ContainerClass::Flac);
    assert_eq!(choose_decode_path(ContainerClass::Flac), DecodePath::Dedicated);
}

#[test]
fn short_buffer_is_not_flac() {
    assert_ne!(classify_header(&[0x66u8, 0x4c, 0x61]), ContainerClass::Flac);
}

#[test]
fn other_audio_takes_the_generic_path() {
    // An Ogg capture pattern: recognized audio, but not the dedicated path.
    let header = [0x4fu8, 0x67, 0x67, 0x53, 0x00, 0x02, 0x00, 0x00, 0x00, 0x00];
    assert_eq!(classify_header(&header), ContainerClass::OtherAudio);
    assert_eq!(choose_decode_path(ContainerClass::OtherAudio), DecodePath::Generic);
}

#[test]
fn unrecognized_bytes_still_take_the_generic_path() {
    let header = [0x00u8, 0x01, 0x02, 0x03, 0x04, 0x05, 0x06, 0x07, 0x08, 0x09];
    assert_eq!(classify_header(&header), ContainerClass::Unknown);
    assert_eq!(choose_decode_path(ContainerClass::Unknown), DecodePath::Generic);
}

#[test]
fn probe_failures_map_to_the_taxonomy() {
    assert_eq!(probe_failure_error(ProbeStage::Probe), Error::UnsupportedContainer);
    assert_eq!(probe_failure_error(ProbeStage::DecoderSetup), Error::UnsupportedCodec);
}

#[test]
fn exhausted_decode_paths_fail_with_decode_unavailable() {
    // An unrecognized file whose primary decode attempt failed, with no
    // fallback implemented for its codec: the file fails, alone.
    let header = [0xdeu8, 0xad, 0xbe, 0xef, 0x00, 0x00, 0x00, 0x00, 0x00, 0x00];
    assert_eq!(classify_header(&header), ContainerClass::Unknown);
    let err = resolve_decode_failure(FallbackOutcome::Unavailable);
    assert_eq!(err, Some(Error::DecodeUnavailable));
    // A failing fallback ends the same way; a successful one rescues it.
    assert_eq!(resolve_decode_failure(FallbackOutcome::Failed), Some(Error::DecodeUnavailable));
    assert_eq!(resolve_decode_failure(FallbackOutcome::Succeeded), None);
}

#[test]
fn one_bad_file_leaves_the_rest_of_the_batch_intact() {
    // Batch outcomes: the second file failed decode, the others produced
    // results; only album aggregation is blocked.
    let outcomes: Vec<Result<u32, Error>> =
        vec![Ok(1), Err(Error::DecodeUnavailable), Ok(3)];
    assert!(outcomes[0].is_ok());
    assert!(outcomes[2].is_ok());
    assert!(!album_allowed(&outcomes));
}
