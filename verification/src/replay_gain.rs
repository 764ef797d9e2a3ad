use vstd::prelude::*;
use crate::error::Error;
use crate::measure::{spec_max_peak, track_peak, Measurement};

verus! {

/// Fixed-point units per decibel: every decibel- or loudness-valued quantity
/// in this crate is an integer counting hundred-thousandths of a dB (or LU,
/// which has the same magnitude on the loudness scale).
pub const DB_SCALE: i64 = 100_000;

/// The ReplayGain 2.0 reference loudness, -18 LUFS, in fixed-point units.
pub const REFERENCE_LOUDNESS: i64 = -1_800_000;

/// Magnitude bound on a single decibel-valued input.  Generous beyond any
/// physical loudness figure; it only serves to keep the 64-bit arithmetic
/// below free of overflow.
pub const DB_LIMIT: i64 = 1_000_000_000_000;

/// A decibel quantity a caller may hand in directly.
pub open spec fn db_bounded(x: int) -> bool {
    -DB_LIMIT <= x <= DB_LIMIT
}

/// A gain value: possibly the sum of a few bounded decibel quantities.
pub open spec fn gain_bounded(x: int) -> bool {
    -3 * DB_LIMIT <= x <= 3 * DB_LIMIT
}

/// The gain that moves a measured loudness onto the -18 LUFS reference,
/// plus the operator-supplied pre-gain.
pub open spec fn spec_gain(loudness: int, pre_gain: int) -> int {
    REFERENCE_LOUDNESS - loudness + pre_gain
}

/// Whether the peak predicted after applying `gain` overshoots the ceiling.
/// All three quantities are decibel-valued, so the predicted peak is the
/// plain sum `gain + peak_db`.
pub open spec fn spec_will_clip(gain: int, peak_db: int, ceiling: int) -> bool {
    gain + peak_db > ceiling
}

/// The clip-prevention correction.  When the predicted peak `gain + peak_db`
/// stays at or under the ceiling, or prevention is off, the gain is kept;
/// otherwise it is lowered by exactly the overshoot, which lands the
/// predicted peak on the ceiling.
pub open spec fn spec_clipped_gain(gain: int, peak_db: int, ceiling: int, prevent: bool) -> int {
    if spec_will_clip(gain, peak_db, ceiling) && prevent {
        ceiling - peak_db
    } else {
        gain
    }
}

/// One track's (or one album's) ReplayGain record.
///
/// `gain`, `loudness_range`, `loudness_reference` and `loudness` are
/// decibel-valued fixed-point integers ([`DB_SCALE`] units per dB).  The true
/// peak is carried twice: `peak` as a linear amplitude (see
/// [`crate::measure::AMP_SCALE`]), the form output tags use, and `peak_db` as
/// the same peak on the dBTP scale, the form the gain arithmetic uses.
#[derive(Clone, Copy, Debug, PartialEq, Eq, Structural)]
pub struct ReplayGain {
    /// Offset to reach the -18 LUFS reference, plus pre-gain, in dB.
    pub gain: i64,
    /// Maximum per-channel true peak, linear amplitude.
    pub peak: i64,
    /// Maximum per-channel true peak, dBTP.
    pub peak_db: i64,
    /// Loudness range, LU.
    pub loudness_range: i64,
    /// Negated pre-gain, recorded for extended tags.
    pub loudness_reference: i64,
    /// Measured integrated loudness, LUFS; informational only.
    pub loudness: i64,
}

impl ReplayGain {
    /// The record's decibel fields are within the bounds the arithmetic needs.
    pub open spec fn bounded(&self) -> bool {
        &&& gain_bounded(self.gain as int)
        &&& db_bounded(self.peak_db as int)
        &&& db_bounded(self.loudness_range as int)
        &&& db_bounded(self.loudness_reference as int)
        &&& db_bounded(self.loudness as int)
    }

    /// Detects whether the gained track would clip and, if `prevent` is set,
    /// lowers the gain just enough to land the predicted peak on the ceiling.
    ///
    /// Returns the (possibly corrected) record, and whether a clipping
    /// warning is due: true exactly when the track would clip, prevention is
    /// off and `warn` is set.
    pub fn clipper(&self, max_true_peak_level: i64, warn: bool, prevent: bool) -> (r: (
        ReplayGain,
        bool,
    ))
        requires
            self.bounded(),
            db_bounded(max_true_peak_level as int),
        ensures
            r.0.gain == spec_clipped_gain(
                self.gain as int,
                self.peak_db as int,
                max_true_peak_level as int,
                prevent,
            ),
            r.0.peak == self.peak,
            r.0.peak_db == self.peak_db,
            r.0.loudness_range == self.loudness_range,
            r.0.loudness_reference == self.loudness_reference,
            r.0.loudness == self.loudness,
            r.1 == (spec_will_clip(self.gain as int, self.peak_db as int, max_true_peak_level as int)
                && !prevent && warn),
            r.0.bounded(),
    {
        let predicted_peak: i64 = self.gain + self.peak_db;
        if predicted_peak > max_true_peak_level {
            if prevent {
                let corrected = ReplayGain { gain: max_true_peak_level - self.peak_db, ..*self };
                (corrected, false)
            } else {
                (*self, warn)
            }
        } else {
            (*self, false)
        }
    }
}

/// `loudness_to_gain(loudness, pre_gain)`: the dB offset that brings a track
/// of the measured integrated loudness to the -18 LUFS reference, shifted by
/// the operator's pre-gain.
pub fn loudness_to_gain(loudness: i64, pre_gain: i64) -> (r: i64)
    requires
        db_bounded(loudness as int),
        db_bounded(pre_gain as int),
    ensures
        r == spec_gain(loudness as int, pre_gain as int),
        gain_bounded(r as int),
{
    REFERENCE_LOUDNESS - loudness + pre_gain
}

/// The reference-loudness figure recorded in extended tags: the negated
/// pre-gain.
pub fn loudness_reference(pre_gain: i64) -> (r: i64)
    requires
        db_bounded(pre_gain as int),
    ensures
        r == -pre_gain,
{
    -pre_gain
}

/// The linear true peaks of a batch of per-track records.
pub open spec fn track_peaks(tracks: Seq<ReplayGain>) -> Seq<i64> {
    tracks.map_values(|t: ReplayGain| t.peak)
}

/// The dBTP true peaks of a batch of per-track records.
pub open spec fn track_peak_dbs(tracks: Seq<ReplayGain>) -> Seq<i64> {
    tracks.map_values(|t: ReplayGain| t.peak_db)
}

/// Derives one track's ReplayGain record from its measurement: the gain per
/// [`spec_gain`], the track peak as the maximum over the per-channel true
/// peaks, and the measured loudness figures carried through.
pub fn track_rg(m: &Measurement, pre_gain: i64) -> (r: ReplayGain)
    requires
        m.wf(),
        db_bounded(pre_gain as int),
    ensures
        r.gain == spec_gain(m.loudness as int, pre_gain as int),
        r.peak == spec_max_peak(m.amplitudes()),
        r.peak_db == spec_max_peak(m.dbtps()),
        r.loudness_range == m.loudness_range,
        r.loudness_reference == -pre_gain,
        r.loudness == m.loudness,
        r.bounded(),
{
    let p = track_peak(m);
    ReplayGain {
        gain: loudness_to_gain(m.loudness, pre_gain),
        peak: p.amplitude,
        peak_db: p.dbtp,
        loudness_range: m.loudness_range,
        loudness_reference: loudness_reference(pre_gain),
        loudness: m.loudness,
    }
}

/// Derives the album's ReplayGain record.  The engine pools loudness and
/// range over every track's retained context; this function turns those
/// pooled figures into a gain by the same rule as a single track, and takes
/// the album peak as the maximum of the already-computed track peaks.
pub fn album_rg(tracks: &Vec<ReplayGain>, album_loudness: i64, album_range: i64, pre_gain: i64) -> (r:
    ReplayGain)
    requires
        tracks@.len() >= 1,
        forall|i: int| 0 <= i < tracks@.len() ==> (#[trigger] tracks@[i]).bounded(),
        db_bounded(album_loudness as int),
        db_bounded(album_range as int),
        db_bounded(pre_gain as int),
    ensures
        r.gain == spec_gain(album_loudness as int, pre_gain as int),
        r.peak == spec_max_peak(track_peaks(tracks@)),
        r.peak_db == spec_max_peak(track_peak_dbs(tracks@)),
        r.loudness_range == album_range,
        r.loudness_reference == -pre_gain,
        r.loudness == album_loudness,
        r.bounded(),
{
    let first = &tracks[0];
    let mut best_peak: i64 = first.peak;
    let mut best_db: i64 = first.peak_db;
    let mut i: usize = 1;
    proof {
        assert(track_peaks(tracks@)[0] == tracks@[0].peak);
        assert(track_peak_dbs(tracks@)[0] == tracks@[0].peak_db);
    }
    while i < tracks.len()
        invariant
            1 <= i <= tracks@.len(),
            forall|j: int| 0 <= j < tracks@.len() ==> (#[trigger] tracks@[j]).bounded(),
            exists|j: int| 0 <= j < i && best_peak == track_peaks(tracks@)[j],
            exists|j: int| 0 <= j < i && best_db == track_peak_dbs(tracks@)[j],
            forall|j: int| 0 <= j < i ==> track_peaks(tracks@)[j] <= best_peak,
            forall|j: int| 0 <= j < i ==> track_peak_dbs(tracks@)[j] <= best_db,
        decreases tracks@.len() - i,
    {
        let t = &tracks[i];
        proof {
            assert(track_peaks(tracks@)[i as int] == tracks@[i as int].peak);
            assert(track_peak_dbs(tracks@)[i as int] == tracks@[i as int].peak_db);
        }
        if t.peak > best_peak {
            best_peak = t.peak;
        }
        if t.peak_db > best_db {
            best_db = t.peak_db;
        }
        i = i + 1;
    }
    proof {
        let j_p = choose|j: int|
            0 <= j < track_peaks(tracks@).len() && best_peak == track_peaks(tracks@)[j];
        assert(track_peaks(tracks@).contains(best_peak));
        crate::measure::lemma_max_peak_unique(track_peaks(tracks@), best_peak);
        let j_d = choose|j: int|
            0 <= j < track_peak_dbs(tracks@).len() && best_db == track_peak_dbs(tracks@)[j];
        assert(track_peak_dbs(tracks@).contains(best_db));
        crate::measure::lemma_max_peak_unique(track_peak_dbs(tracks@), best_db);
        assert(tracks@[j_d].bounded());
    }
    ReplayGain {
        gain: loudness_to_gain(album_loudness, pre_gain),
        peak: best_peak,
        peak_db: best_db,
        loudness_range: album_range,
        loudness_reference: loudness_reference(pre_gain),
        loudness: album_loudness,
    }
}

/// Album aggregation needs the complete set of per-track measurement
/// contexts, so it may run only when no track in the batch failed; a missing
/// track fails the whole album, distinctly from the per-file errors.
pub fn album_allowed<T>(outcomes: &Vec<Result<T, Error>>) -> (r: bool)
    ensures
        r <==> (forall|i: int| 0 <= i < outcomes@.len() ==> (#[trigger] outcomes@[i]) is Ok),
{
    let mut all_ok = true;
    let mut i: usize = 0;
    while i < outcomes.len()
        invariant
            0 <= i <= outcomes@.len(),
            all_ok <==> (forall|j: int| 0 <= j < i ==> (#[trigger] outcomes@[j]) is Ok),
        decreases outcomes@.len() - i,
    {
        match &outcomes[i] {
            Ok(_) => {
            },
            Err(_) => {
                all_ok = false;
            },
        }
        i = i + 1;
    }
    all_ok
}

/// Clip prevention is a no-op whenever the predicted post-gain peak already
/// respects the ceiling: the output gain equals the input gain, whatever the
/// flags say.
pub proof fn lemma_clip_prevention_noop(gain: int, peak_db: int, ceiling: int, prevent: bool)
    requires
        gain + peak_db <= ceiling,
    ensures
        spec_clipped_gain(gain, peak_db, ceiling, prevent) == gain,
{
}

/// Clip prevention is idempotent: applied to its own output with the same
/// ceiling and flags, it never changes the gain a second time.  After a
/// correction the predicted peak sits exactly on the ceiling, so the second
/// application takes the no-change branch.
pub proof fn lemma_clip_prevention_idempotent(
    gain: int,
    peak_db: int,
    ceiling: int,
    prevent: bool,
)
    ensures
        spec_clipped_gain(
            spec_clipped_gain(gain, peak_db, ceiling, prevent),
            peak_db,
            ceiling,
            prevent,
        ) == spec_clipped_gain(gain, peak_db, ceiling, prevent),
{
}

} // verus!
