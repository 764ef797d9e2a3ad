use vstd::prelude::*;

verus! {

/// Why a file could not be decoded or measured.
///
/// Per-file failures are isolated: an error for one file never aborts the
/// processing of its siblings in a batch.
#[derive(Clone, Copy, Debug, PartialEq, Eq, Structural)]
pub enum Error {
    /// The container format could not be probed or opened.
    UnsupportedContainer,
    /// No decoder accepts the selected track's codec parameters.
    UnsupportedCodec,
    /// Every decode path, primary and fallback, has been exhausted.
    DecodeUnavailable,
    /// Two sample buffers of different numeric domains were combined.
    DomainMismatch,
    /// A measurement context was requested for zero channels.
    InvalidChannelCount,
    /// A measurement context was requested for a zero sample rate.
    InvalidSampleRate,
    /// The measurement engine cannot honour the requested analysis flags,
    /// or a stream's sample layout is outside the supported depths.
    UnsupportedConfiguration,
    /// The measurement engine has not seen enough audio for a stable figure.
    InsufficientData,
}

impl Error {
    /// A short human-readable account of the failure.
    pub fn describe(&self) -> (r: &'static str)
        ensures
            r@ == match self {
                Error::UnsupportedContainer => "unsupported container format"@,
                Error::UnsupportedCodec => "unsupported codec"@,
                Error::DecodeUnavailable => "no decode path available"@,
                Error::DomainMismatch => "sample domain mismatch"@,
                Error::InvalidChannelCount => "invalid channel count"@,
                Error::InvalidSampleRate => "invalid sample rate"@,
                Error::UnsupportedConfiguration => "unsupported configuration"@,
                Error::InsufficientData => "insufficient audio data"@,
            },
            r@.len() > 0,
    {
        proof {
            reveal_strlit("unsupported container format");
            reveal_strlit("unsupported codec");
            reveal_strlit("no decode path available");
            reveal_strlit("sample domain mismatch");
            reveal_strlit("invalid channel count");
            reveal_strlit("invalid sample rate");
            reveal_strlit("unsupported configuration");
            reveal_strlit("insufficient audio data");
        }
        match self {
            Error::UnsupportedContainer => "unsupported container format",
            Error::UnsupportedCodec => "unsupported codec",
            Error::DecodeUnavailable => "no decode path available",
            Error::DomainMismatch => "sample domain mismatch",
            Error::InvalidChannelCount => "invalid channel count",
            Error::InvalidSampleRate => "invalid sample rate",
            Error::UnsupportedConfiguration => "unsupported configuration",
            Error::InsufficientData => "insufficient audio data",
        }
    }
}

} // verus!
