//! Loudness-normalization metadata for audio tracks.
//!
//! The crate computes ReplayGain figures (gain, true peak, loudness range)
//! for single tracks and for albums, following the EBU R128 loudness
//! conventions.  Decoded audio is normalized into a small closed set of
//! sample domains, fed to an external measurement engine, and the measured
//! figures are turned into a gain value with an optional clip-prevention
//! correction.
//!
//! All decibel and loudness quantities are carried as fixed-point integers
//! (see [`replay_gain::DB_SCALE`]), and linear amplitudes likewise (see
//! [`measure::AMP_SCALE`]), so that every derivation is exact.

pub mod audio;
pub mod detect;
pub mod error;
pub mod measure;
pub mod options;
pub mod replay_gain;
pub mod tagger;
