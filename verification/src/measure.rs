use vstd::prelude::*;
use crate::audio::Domain;
use crate::error::Error;
use crate::replay_gain::db_bounded;

verus! {

/// Fixed-point units per unit of linear amplitude: a true peak of 1.0 (full
/// scale, 0 dBTP) is carried as 1_000_000_000.
pub const AMP_SCALE: i64 = 1_000_000_000;

/// The analyses requested from the measurement engine.  This crate always
/// needs integrated loudness, loudness range and true peak together.
#[derive(Clone, Copy, Debug, PartialEq, Eq, Structural)]
pub struct AnalysisFlags {
    /// Integrated (global) loudness.
    pub integrated: bool,
    /// Loudness range.
    pub loudness_range: bool,
    /// Per-channel true peak.
    pub true_peak: bool,
}

impl AnalysisFlags {
    /// All three analyses are requested, as the pipeline requires.
    pub open spec fn complete(&self) -> bool {
        self.integrated && self.loudness_range && self.true_peak
    }

    /// The full analysis set the pipeline always asks for.
    pub fn all() -> (r: AnalysisFlags)
        ensures
            r.complete(),
    {
        AnalysisFlags { integrated: true, loudness_range: true, true_peak: true }
    }
}

/// Validated construction parameters for one per-track measurement context.
#[derive(Clone, Copy, Debug, PartialEq, Eq, Structural)]
pub struct ContextParams {
    /// Number of interleaved channels; at least one.
    pub channels: u32,
    /// Sampling rate in Hz; positive.
    pub sample_rate: u32,
}

impl ContextParams {
    /// The parameters a measurement context can actually be built from.
    pub open spec fn wf(&self) -> bool {
        self.channels >= 1 && self.sample_rate >= 1
    }
}

/// Validates the construction parameters for a per-track measurement
/// context: the channel count and sample rate must be positive, and the
/// requested analysis set must be the complete one, since integrated
/// loudness, loudness range and true peak are always measured together.
pub fn new_context(channels: u32, sample_rate: u32, flags: AnalysisFlags) -> (r: Result<
    ContextParams,
    Error,
>)
    ensures
        channels == 0 ==> r == Err::<ContextParams, Error>(Error::InvalidChannelCount),
        channels >= 1 && sample_rate == 0 ==> r == Err::<ContextParams, Error>(
            Error::InvalidSampleRate,
        ),
        channels >= 1 && sample_rate >= 1 && !flags.complete() ==> r == Err::<
            ContextParams,
            Error,
        >(Error::UnsupportedConfiguration),
        channels >= 1 && sample_rate >= 1 && flags.complete() ==> r == Ok::<ContextParams, Error>(
            ContextParams { channels, sample_rate },
        ),
        r matches Ok(p) ==> p.wf(),
{
    if channels == 0 {
        Err(Error::InvalidChannelCount)
    } else if sample_rate == 0 {
        Err(Error::InvalidSampleRate)
    } else if !(flags.integrated && flags.loudness_range && flags.true_peak) {
        Err(Error::UnsupportedConfiguration)
    } else {
        Ok(ContextParams { channels, sample_rate })
    }
}

/// The engine's bulk-ingestion entry points, one per sample domain.
#[derive(Clone, Copy, Debug, PartialEq, Eq, Structural)]
pub enum IngestEntry {
    /// Feed 16-bit integer frames.
    FramesI16,
    /// Feed 32-bit integer frames.
    FramesI32,
    /// Feed 32-bit float frames.
    FramesF32,
    /// Feed 64-bit float frames.
    FramesF64,
}

/// Which ingestion entry point matches a buffer's domain.
pub open spec fn spec_ingest_entry(d: Domain) -> IngestEntry {
    match d {
        Domain::S16 => IngestEntry::FramesI16,
        Domain::S32 => IngestEntry::FramesI32,
        Domain::F32 => IngestEntry::FramesF32,
        Domain::F64 => IngestEntry::FramesF64,
    }
}

/// Selects the engine entry point for a buffer's domain.  Samples are fed in
/// their native domain, never upcast: calling any other entry point is a
/// programmer error.
pub fn ingest_entry(d: Domain) -> (r: IngestEntry)
    ensures
        r == spec_ingest_entry(d),
{
    match d {
        Domain::S16 => IngestEntry::FramesI16,
        Domain::S32 => IngestEntry::FramesI32,
        Domain::F32 => IngestEntry::FramesF32,
        Domain::F64 => IngestEntry::FramesF64,
    }
}

/// One channel's true peak, carried on both scales the pipeline uses:
/// `amplitude` linear (in [`AMP_SCALE`] units), `dbtp` logarithmic (in
/// [`crate::replay_gain::DB_SCALE`] units).
#[derive(Clone, Copy, Debug, PartialEq, Eq, Structural)]
pub struct ChannelPeak {
    /// Linear true-peak amplitude; non-negative.
    pub amplitude: i64,
    /// The same peak on the dBTP scale.
    pub dbtp: i64,
}

impl ChannelPeak {
    /// Within the ranges the gain arithmetic needs.
    pub open spec fn wf(&self) -> bool {
        self.amplitude >= 0 && db_bounded(self.dbtp as int)
    }
}

/// One track's measurement record, extracted from the engine after the
/// track's whole buffer was ingested.
pub struct Measurement {
    /// Integrated loudness, LUFS.
    pub loudness: i64,
    /// Loudness range, LU.
    pub loudness_range: i64,
    /// True peak of each channel.
    pub peaks: Vec<ChannelPeak>,
}

impl Measurement {
    /// A record for at least one channel, with every figure in range.
    pub open spec fn wf(&self) -> bool {
        &&& self.peaks@.len() >= 1
        &&& db_bounded(self.loudness as int)
        &&& db_bounded(self.loudness_range as int)
        &&& forall|i: int| 0 <= i < self.peaks@.len() ==> (#[trigger] self.peaks@[i]).wf()
    }

    /// The per-channel linear amplitudes.
    pub open spec fn amplitudes(&self) -> Seq<i64> {
        self.peaks@.map_values(|p: ChannelPeak| p.amplitude)
    }

    /// The per-channel dBTP figures.
    pub open spec fn dbtps(&self) -> Seq<i64> {
        self.peaks@.map_values(|p: ChannelPeak| p.dbtp)
    }
}

/// The largest value of a non-empty sequence.
pub open spec fn spec_max_peak(s: Seq<i64>) -> i64
    recommends
        s.len() > 0,
    decreases s.len(),
{
    if s.len() <= 1 {
        s[0]
    } else {
        let rest = spec_max_peak(s.drop_first());
        if s[0] >= rest {
            s[0]
        } else {
            rest
        }
    }
}

/// The maximum of a non-empty sequence is one of its elements and bounds
/// them all.
pub proof fn lemma_max_peak_properties(s: Seq<i64>)
    requires
        s.len() > 0,
    ensures
        s.contains(spec_max_peak(s)),
        forall|i: int| 0 <= i < s.len() ==> s[i] <= spec_max_peak(s),
    decreases s.len(),
{
    if s.len() == 1 {
        assert(s[0] == spec_max_peak(s));
        assert(s.contains(spec_max_peak(s)));
    } else {
        let rest = s.drop_first();
        lemma_max_peak_properties(rest);
        let m = spec_max_peak(s);
        if s[0] >= spec_max_peak(rest) {
            assert(s.contains(m));
        } else {
            let j = choose|j: int| 0 <= j < rest.len() && rest[j] == m;
            assert(s[j + 1] == m);
            assert(s.contains(m));
        }
        assert forall|i: int| 0 <= i < s.len() implies s[i] <= m by {
            if i > 0 {
                assert(s[i] == rest[i - 1]);
            }
        }
    }
}

/// The maximum is the unique element that bounds the whole sequence.
pub proof fn lemma_max_peak_unique(s: Seq<i64>, m: i64)
    requires
        s.len() > 0,
        s.contains(m),
        forall|i: int| 0 <= i < s.len() ==> s[i] <= m,
    ensures
        spec_max_peak(s) == m,
{
    lemma_max_peak_properties(s);
    let i = choose|i: int| 0 <= i < s.len() && s[i] == spec_max_peak(s);
    let j = choose|j: int| 0 <= j < s.len() && s[j] == m;
    assert(s[i] <= m);
    assert(s[j] <= spec_max_peak(s));
}

/// The maximum of a non-empty sequence is invariant under reordering: any
/// two sequences holding the same values the same number of times share it.
pub proof fn lemma_max_peak_permutation(s: Seq<i64>, t: Seq<i64>)
    requires
        s.len() > 0,
        s.to_multiset() == t.to_multiset(),
    ensures
        spec_max_peak(t) == spec_max_peak(s),
{
    s.to_multiset_ensures();
    t.to_multiset_ensures();
    assert(t.len() > 0);
    lemma_max_peak_properties(s);
    lemma_max_peak_properties(t);
    assert(s.to_multiset().count(spec_max_peak(s)) > 0);
    assert(t.to_multiset().count(spec_max_peak(t)) > 0);
    assert(t.contains(spec_max_peak(s)));
    assert(s.contains(spec_max_peak(t)));
    let i = choose|i: int| 0 <= i < t.len() && t[i] == spec_max_peak(s);
    let j = choose|j: int| 0 <= j < s.len() && s[j] == spec_max_peak(t);
    assert(t[i] <= spec_max_peak(t));
    assert(s[j] <= spec_max_peak(s));
}

/// The track's true peak: the maximum over all channels, on both scales.
pub fn track_peak(m: &Measurement) -> (r: ChannelPeak)
    requires
        m.wf(),
    ensures
        r.amplitude == spec_max_peak(m.amplitudes()),
        r.dbtp == spec_max_peak(m.dbtps()),
        r.wf(),
{
    let first = *vec_get(&m.peaks, 0);
    let mut best_amp: i64 = first.amplitude;
    let mut best_db: i64 = first.dbtp;
    let mut i: usize = 1;
    proof {
        assert(m.amplitudes()[0] == m.peaks@[0].amplitude);
        assert(m.dbtps()[0] == m.peaks@[0].dbtp);
    }
    while i < m.peaks.len()
        invariant
            1 <= i <= m.peaks@.len(),
            m.wf(),
            exists|j: int| 0 <= j < i && best_amp == m.amplitudes()[j],
            exists|j: int| 0 <= j < i && best_db == m.dbtps()[j],
            forall|j: int| 0 <= j < i ==> m.amplitudes()[j] <= best_amp,
            forall|j: int| 0 <= j < i ==> m.dbtps()[j] <= best_db,
        decreases m.peaks@.len() - i,
    {
        let p = *vec_get(&m.peaks, i);
        proof {
            assert(m.amplitudes()[i as int] == m.peaks@[i as int].amplitude);
            assert(m.dbtps()[i as int] == m.peaks@[i as int].dbtp);
        }
        if p.amplitude > best_amp {
            best_amp = p.amplitude;
        }
        if p.dbtp > best_db {
            best_db = p.dbtp;
        }
        i = i + 1;
    }
    proof {
        let j_amp = choose|j: int| 0 <= j < m.amplitudes().len() && best_amp == m.amplitudes()[j];
        assert(m.amplitudes().contains(best_amp));
        lemma_max_peak_unique(m.amplitudes(), best_amp);
        let j_db = choose|j: int| 0 <= j < m.dbtps().len() && best_db == m.dbtps()[j];
        assert(m.dbtps().contains(best_db));
        lemma_max_peak_unique(m.dbtps(), best_db);
        assert(m.peaks@[j_amp].wf());
        assert(m.peaks@[j_db].wf());
    }
    ChannelPeak { amplitude: best_amp, dbtp: best_db }
}

/// Reads one element of a vector.
fn vec_get<T>(v: &Vec<T>, i: usize) -> (r: &T)
    requires
        i < v@.len(),
    ensures
        *r == v@[i as int],
{
    &v[i]
}

} // verus!
