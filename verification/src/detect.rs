use vstd::prelude::*;
use crate::error::Error;

verus! {

/// The byte signature of the dedicated lossless container: a buffer longer
/// than three bytes beginning with `fLaC`.
pub open spec fn flac_magic(s: Seq<u8>) -> bool {
    s.len() > 3 && s[0] == 0x66 && s[1] == 0x4c && s[2] == 0x61 && s[3] == 0x43
}

/// Relies on infer::audio::is_flac: it returns true exactly when the buffer
/// is longer than three bytes and starts with the `fLaC` signature.
#[verifier::external_body]
fn is_flac_data(buf: &[u8]) -> (r: bool)
    ensures
        r == flac_magic(buf@),
{
    infer::audio::is_flac(buf)
}

/// Relies on infer::is_audio: whether any known audio signature matches the
/// buffer.  The FLAC matcher is among those consulted, so a buffer carrying
/// the `fLaC` signature always answers true; and every audio matcher reads
/// at least two bytes, so a shorter buffer never matches.
#[verifier::external_body]
fn is_audio_data(buf: &[u8]) -> (r: bool)
    ensures
        flac_magic(buf@) ==> r,
        buf@.len() <= 1 ==> !r,
{
    infer::is_audio(buf)
}

/// What sniffing a file's leading bytes concluded.
#[derive(Clone, Copy, Debug, PartialEq, Eq, Structural)]
pub enum ContainerClass {
    /// The dedicated lossless container.
    Flac,
    /// Some other recognized audio container.
    OtherAudio,
    /// No recognized audio signature.
    Unknown,
}

/// Classifies a file by its leading bytes.  The lossless container is
/// recognized exactly by its `fLaC` signature; any other buffer is sorted by
/// whether a known audio signature matches it.
pub fn classify_header(buf: &[u8]) -> (r: ContainerClass)
    ensures
        (r == ContainerClass::Flac) <==> flac_magic(buf@),
        buf@.len() <= 1 ==> r == ContainerClass::Unknown,
{
    if is_flac_data(buf) {
        ContainerClass::Flac
    } else if is_audio_data(buf) {
        ContainerClass::OtherAudio
    } else {
        ContainerClass::Unknown
    }
}

/// How a file will be decoded.
#[derive(Clone, Copy, Debug, PartialEq, Eq, Structural)]
pub enum DecodePath {
    /// The lossless container's dedicated, non-probing stream decode.
    Dedicated,
    /// The generic probe-and-decode path.
    Generic,
}

/// The path-selection rule: only the lossless container takes the dedicated
/// path; everything else, the unrecognized included, is probed generically
/// as a best effort.
pub open spec fn spec_decode_path(c: ContainerClass) -> DecodePath {
    if c == ContainerClass::Flac {
        DecodePath::Dedicated
    } else {
        DecodePath::Generic
    }
}

/// Chooses a file's decode path from its sniffed class.  An unrecognized
/// file is not failed here: the generic reader still gets its attempt.
pub fn choose_decode_path(c: ContainerClass) -> (r: DecodePath)
    ensures
        r == spec_decode_path(c),
{
    match c {
        ContainerClass::Flac => DecodePath::Dedicated,
        ContainerClass::OtherAudio => DecodePath::Generic,
        ContainerClass::Unknown => DecodePath::Generic,
    }
}

/// Where the generic probe-and-decode path gave up on a file.
#[derive(Clone, Copy, Debug, PartialEq, Eq, Structural)]
pub enum ProbeStage {
    /// Probing or opening the container failed.
    Probe,
    /// No decoder accepts the selected track's codec parameters.
    DecoderSetup,
}

/// Maps a failure of the probe-or-open phase to the error taxonomy: a
/// container nothing can demux is `UnsupportedContainer`; a track whose
/// codec parameters no decoder accepts is `UnsupportedCodec`.  Either is
/// fatal for the file alone.
pub fn probe_failure_error(stage: ProbeStage) -> (r: Error)
    ensures
        stage == ProbeStage::Probe ==> r == Error::UnsupportedContainer,
        stage == ProbeStage::DecoderSetup ==> r == Error::UnsupportedCodec,
{
    match stage {
        ProbeStage::Probe => Error::UnsupportedContainer,
        ProbeStage::DecoderSetup => Error::UnsupportedCodec,
    }
}

/// How the best-effort alternate decode attempt ended, once the primary
/// reader has failed.
#[derive(Clone, Copy, Debug, PartialEq, Eq, Structural)]
pub enum FallbackOutcome {
    /// The alternate path produced the track after all.
    Succeeded,
    /// The alternate path was tried and failed too.
    Failed,
    /// No alternate path exists for this file's codec.
    Unavailable,
}

/// Settles a file's fate after its primary decode attempt failed.  A
/// successful fallback rescues the file; otherwise every path is exhausted
/// and the file fails with `DecodeUnavailable` — an error recorded against
/// this file only, never aborting the rest of the batch.
pub fn resolve_decode_failure(fallback: FallbackOutcome) -> (r: Option<Error>)
    ensures
        fallback == FallbackOutcome::Succeeded ==> r == Option::<Error>::None,
        fallback != FallbackOutcome::Succeeded ==> r == Option::<Error>::Some(
            Error::DecodeUnavailable,
        ),
{
    match fallback {
        FallbackOutcome::Succeeded => None,
        FallbackOutcome::Failed => Some(Error::DecodeUnavailable),
        FallbackOutcome::Unavailable => Some(Error::DecodeUnavailable),
    }
}

} // verus!
