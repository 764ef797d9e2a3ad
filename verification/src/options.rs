use vstd::prelude::*;
use vstd::string::*;
use crate::replay_gain::DB_SCALE;

verus! {

/// How results are presented.
#[derive(Clone, Copy, Debug, PartialEq, Eq, Structural)]
pub enum OutputMode {
    /// Human-readable report.
    Human,
    /// Old-style tab-delimited list.
    Old,
    /// New-style tab-delimited list.
    New,
}

/// What is done to each file's tags.
#[derive(Clone, Copy, Debug, PartialEq, Eq, Structural)]
pub enum Mode {
    /// Write ReplayGain tags plus the extended reference and range tags.
    WriteExtended,
    /// Write the plain ReplayGain tags.
    Write,
    /// Compute and report only; write nothing.
    Noop,
    /// Delete ReplayGain tags.
    Delete,
}

/// The tag-mode letter accepted on the command line.
#[derive(Clone, Copy, Debug, PartialEq, Eq, Structural)]
pub enum Tagmode {
    /// Delete ReplayGain tags from files.
    D,
    /// Write ReplayGain tags.
    I,
    /// Write ReplayGain tags plus the extended ones.
    E,
    /// As the extended mode, with LU units instead of dB.
    L,
    /// Write nothing.
    S,
}

/// Which ID3v2 revision is written to the containers that use it.
#[derive(Clone, Copy, Debug, PartialEq, Eq, Structural)]
pub enum Id3v2version {
    /// ID3v2.3.
    V3,
    /// ID3v2.4.
    V4,
}

/// The raw command-line switches, as the option parser hands them over.
pub struct RawOptions {
    /// The files to process.
    pub files: Vec<String>,
    /// Calculate track gain (the default).
    pub track: bool,
    /// Calculate album gain as well.
    pub album: bool,
    /// Ignore clipping warnings.
    pub clip: bool,
    /// Lower gains to avoid clipping, with the default ceiling.
    pub noclip: bool,
    /// Avoid clipping with an explicit ceiling, in whole dBTP.
    pub maxtpl: Option<i32>,
    /// Pre-gain to apply, in whole dB (-5 targets -23 LUFS).
    pub pregain: Option<i32>,
    /// The tag-mode letter.
    pub tagmode: Tagmode,
    /// Force lowercase tag keys where that is customary.
    pub lowercase: bool,
    /// Strip foreign tag types from the written files.
    pub striptags: bool,
    /// ID3v2 revision to write.
    pub id3v2version: Id3v2version,
    /// Old-style list output.
    pub output: bool,
    /// New-style list output.
    pub output_new: bool,
}

/// The resolved configuration the pipeline consumes.
#[derive(Debug)]
pub struct Opts {
    /// The files to process.
    pub files: Vec<String>,
    /// How results are presented.
    pub output: OutputMode,
    /// Unit label written alongside gains: `dB`, or `LU` in the LU tag mode.
    pub units: String,
    /// What is done to each file's tags.
    pub mode: Mode,
    /// Pre-gain, fixed-point dB.
    pub pre_gain: i64,
    /// True-peak ceiling for clip prevention, fixed-point dBTP; the default
    /// is -1 dBTP.
    pub max_true_peak_level: i64,
    /// Whether an album figure is computed over the whole batch.
    pub do_album: bool,
    /// Warn when a track would clip.
    pub warn_clip: bool,
    /// Lower gains so no track clips.
    pub clip_prevention: bool,
    /// Force lowercase tag keys.
    pub lowercase: bool,
    /// Strip foreign tag types.
    pub strip: bool,
    /// ID3v2 revision to write.
    pub id3v2version: Id3v2version,
}

/// The tag mode a letter selects, either letter case accepted.
pub open spec fn spec_tagmode(c: char) -> Option<Tagmode> {
    if c == 'd' || c == 'D' {
        Some(Tagmode::D)
    } else if c == 'i' || c == 'I' {
        Some(Tagmode::I)
    } else if c == 'e' || c == 'E' {
        Some(Tagmode::E)
    } else if c == 'l' || c == 'L' {
        Some(Tagmode::L)
    } else if c == 's' || c == 'S' {
        Some(Tagmode::S)
    } else {
        None
    }
}

/// Parses one tag-mode letter.
pub fn tagmode_from_char(c: char) -> (r: Option<Tagmode>)
    ensures
        r == spec_tagmode(c),
{
    if c == 'd' || c == 'D' {
        Some(Tagmode::D)
    } else if c == 'i' || c == 'I' {
        Some(Tagmode::I)
    } else if c == 'e' || c == 'E' {
        Some(Tagmode::E)
    } else if c == 'l' || c == 'L' {
        Some(Tagmode::L)
    } else if c == 's' || c == 'S' {
        Some(Tagmode::S)
    } else {
        None
    }
}

/// Parses a tag-mode argument by its first letter, as the command line
/// accepts it.
pub fn tagmode_from_str(s: &str) -> (r: Option<Tagmode>)
    ensures
        match r {
            Some(m) => s@.len() > 0 && spec_tagmode(s@[0]) == Some(m),
            None => s@.len() == 0 || spec_tagmode(s@[0]) is None,
        },
{
    if s.unicode_len() == 0 {
        None
    } else {
        tagmode_from_char(s.get_char(0))
    }
}

/// Parses an ID3v2 revision argument by its first character: only
/// revisions 3 and 4 are supported.
pub fn id3v2version_from_char(c: char) -> (r: Option<Id3v2version>)
    ensures
        c == '3' ==> r == Some(Id3v2version::V3),
        c == '4' ==> r == Some(Id3v2version::V4),
        c != '3' && c != '4' ==> r == Option::<Id3v2version>::None,
{
    if c == '3' {
        Some(Id3v2version::V3)
    } else if c == '4' {
        Some(Id3v2version::V4)
    } else {
        None
    }
}

/// The tag-writing mode each tag-mode letter selects.
pub open spec fn spec_mode_for(t: Tagmode) -> Mode {
    match t {
        Tagmode::D => Mode::Delete,
        Tagmode::I => Mode::WriteExtended,
        Tagmode::E => Mode::WriteExtended,
        Tagmode::L => Mode::Write,
        Tagmode::S => Mode::Noop,
    }
}

/// Resolves the raw switches into the configuration the pipeline consumes:
/// the output style, the unit label (`LU` only in the LU tag mode), the
/// tag-writing mode, the fixed-point pre-gain and true-peak ceiling (the
/// ceiling defaults to -1 dBTP), and the clip flags — an explicit ceiling
/// implies clip prevention.
pub fn resolve_options(raw: RawOptions) -> (r: Opts)
    ensures
        r.files == raw.files,
        r.output == (if raw.output {
            OutputMode::Old
        } else if raw.output_new {
            OutputMode::New
        } else {
            OutputMode::Human
        }),
        r.units@ == (if raw.tagmode == Tagmode::L {
            "LU"@
        } else {
            "dB"@
        }),
        r.mode == spec_mode_for(raw.tagmode),
        r.pre_gain == (match raw.pregain {
            Some(n) => n as int * DB_SCALE,
            None => 0int,
        }),
        r.max_true_peak_level == (match raw.maxtpl {
            Some(n) => n as int * DB_SCALE,
            None => -DB_SCALE as int,
        }),
        r.do_album == raw.album,
        r.warn_clip == !raw.clip,
        r.clip_prevention == (raw.noclip || raw.maxtpl is Some),
        r.lowercase == raw.lowercase,
        r.strip == raw.striptags,
        r.id3v2version == raw.id3v2version,
{
    let output = if raw.output {
        OutputMode::Old
    } else if raw.output_new {
        OutputMode::New
    } else {
        OutputMode::Human
    };
    let units = if raw.tagmode == Tagmode::L {
        String::from_str("LU")
    } else {
        String::from_str("dB")
    };
    let mode = match raw.tagmode {
        Tagmode::D => Mode::Delete,
        Tagmode::I => Mode::WriteExtended,
        Tagmode::E => Mode::WriteExtended,
        Tagmode::L => Mode::Write,
        Tagmode::S => Mode::Noop,
    };
    let pre_gain: i64 = match raw.pregain {
        Some(n) => (n as i64) * DB_SCALE,
        None => 0,
    };
    let clip_prevention = raw.noclip || raw.maxtpl.is_some();
    let max_true_peak_level: i64 = match raw.maxtpl {
        Some(n) => (n as i64) * DB_SCALE,
        None => -DB_SCALE,
    };
    Opts {
        files: raw.files,
        output,
        units,
        mode,
        pre_gain,
        max_true_peak_level,
        do_album: raw.album,
        warn_clip: !raw.clip,
        clip_prevention,
        lowercase: raw.lowercase,
        strip: raw.striptags,
        id3v2version: raw.id3v2version,
    }
}

} // verus!
