use vstd::prelude::*;
use vstd::string::*;

verus! {

/// The nine tag keys ReplayGain data lives under.
pub open spec fn spec_replaygain_tags() -> Seq<Seq<char>> {
    seq![
        "REPLAYGAIN_TRACK_GAIN"@,
        "REPLAYGAIN_TRACK_PEAK"@,
        "REPLAYGAIN_TRACK_RANGE"@,
        "REPLAYGAIN_ALBUM_GAIN"@,
        "REPLAYGAIN_ALBUM_PEAK"@,
        "REPLAYGAIN_ALBUM_RANGE"@,
        "REPLAYGAIN_REFERENCE_LOUDNESS"@,
        "R128_TRACK_GAIN"@,
        "R128_ALBUM_GAIN"@,
    ]
}

/// The same nine keys in lowercase, as some containers customarily carry
/// them.
pub open spec fn spec_replaygain_tags_lower() -> Seq<Seq<char>> {
    seq![
        "replaygain_track_gain"@,
        "replaygain_track_peak"@,
        "replaygain_track_range"@,
        "replaygain_album_gain"@,
        "replaygain_album_peak"@,
        "replaygain_album_range"@,
        "replaygain_reference_loudness"@,
        "r128_track_gain"@,
        "r128_album_gain"@,
    ]
}

/// The item-key prefix ReplayGain data lives under in MP4-style metadata.
pub open spec fn spec_mp4_atom_prefix() -> Seq<char> {
    "----:COM.APPLE.ITUNES:"@
}

/// The nine ReplayGain tag keys, in their standard uppercase form.
pub fn replaygain_tags() -> (r: Vec<&'static str>)
    ensures
        r@.map_values(|s: &str| s@) == spec_replaygain_tags(),
{
    let mut v: Vec<&'static str> = Vec::new();
    v.push("REPLAYGAIN_TRACK_GAIN");
    v.push("REPLAYGAIN_TRACK_PEAK");
    v.push("REPLAYGAIN_TRACK_RANGE");
    v.push("REPLAYGAIN_ALBUM_GAIN");
    v.push("REPLAYGAIN_ALBUM_PEAK");
    v.push("REPLAYGAIN_ALBUM_RANGE");
    v.push("REPLAYGAIN_REFERENCE_LOUDNESS");
    v.push("R128_TRACK_GAIN");
    v.push("R128_ALBUM_GAIN");
    proof {
        assert(v@.map_values(|s: &str| s@) =~= spec_replaygain_tags());
    }
    v
}

/// The nine ReplayGain tag keys in lowercase.
pub fn replaygain_tags_lower() -> (r: Vec<&'static str>)
    ensures
        r@.map_values(|s: &str| s@) == spec_replaygain_tags_lower(),
{
    let mut v: Vec<&'static str> = Vec::new();
    v.push("replaygain_track_gain");
    v.push("replaygain_track_peak");
    v.push("replaygain_track_range");
    v.push("replaygain_album_gain");
    v.push("replaygain_album_peak");
    v.push("replaygain_album_range");
    v.push("replaygain_reference_loudness");
    v.push("r128_track_gain");
    v.push("r128_album_gain");
    proof {
        assert(v@.map_values(|s: &str| s@) =~= spec_replaygain_tags_lower());
    }
    v
}

/// A tag container type the generic tagging backend may find in a file.
#[derive(Clone, Copy, Debug, PartialEq, Eq, Structural)]
pub enum TagKind {
    /// APEv2 tags.
    Ape,
    /// ID3v1 tags.
    Id3v1,
    /// ID3v2 tags.
    Id3v2,
    /// MP4-style `ilst` metadata.
    Mp4Ilst,
    /// Vorbis comments.
    VorbisComments,
    /// RIFF INFO chunks.
    RiffInfo,
    /// AIFF text chunks.
    AiffText,
}

/// Which tagging backend a file gets.
#[derive(Clone, Copy, Debug, PartialEq, Eq, Structural)]
pub enum TaggerKind {
    /// The dedicated FLAC backend, writing Vorbis comments.
    Flac,
    /// The generic backend, driven by the tag types found in the file.
    Generic,
}

/// Whether an extension spells `flac`, in any letter case.
pub open spec fn spec_is_flac_ext(s: Seq<char>) -> bool {
    &&& s.len() == 4
    &&& (s[0] == 'f' || s[0] == 'F')
    &&& (s[1] == 'l' || s[1] == 'L')
    &&& (s[2] == 'a' || s[2] == 'A')
    &&& (s[3] == 'c' || s[3] == 'C')
}

/// Selects the tagging backend from the file extension: `flac` in any
/// letter case gets the dedicated backend, everything else the generic one.
pub fn tagger_for_extension(ext: &str) -> (r: TaggerKind)
    ensures
        (r == TaggerKind::Flac) <==> spec_is_flac_ext(ext@),
{
    if ext.unicode_len() != 4 {
        return TaggerKind::Generic;
    }
    let c0 = ext.get_char(0);
    let c1 = ext.get_char(1);
    let c2 = ext.get_char(2);
    let c3 = ext.get_char(3);
    if (c0 == 'f' || c0 == 'F') && (c1 == 'l' || c1 == 'L') && (c2 == 'a' || c2 == 'A') && (c3
        == 'c' || c3 == 'C') {
        TaggerKind::Flac
    } else {
        TaggerKind::Generic
    }
}

/// The keys to remove from one tag container, or nothing where removal is
/// not supported for that container: MP4-style metadata carries the keys
/// under the iTunes atom prefix; comment- and chunk-style containers carry
/// them in either letter case; the remaining types have no removal support.
pub open spec fn spec_removal_keys(kind: TagKind) -> Option<Seq<Seq<char>>> {
    match kind {
        TagKind::Mp4Ilst => Some(
            Seq::new(9, |i: int| spec_mp4_atom_prefix() + spec_replaygain_tags()[i]),
        ),
        TagKind::VorbisComments => Some(spec_replaygain_tags() + spec_replaygain_tags_lower()),
        TagKind::RiffInfo => Some(spec_replaygain_tags() + spec_replaygain_tags_lower()),
        TagKind::AiffText => Some(spec_replaygain_tags() + spec_replaygain_tags_lower()),
        TagKind::Ape => None,
        TagKind::Id3v1 => None,
        TagKind::Id3v2 => None,
    }
}

/// Builds the removal key list for one tag container found by the generic
/// backend.
pub fn removal_keys(kind: TagKind) -> (r: Option<Vec<String>>)
    ensures
        match r {
            Some(keys) => spec_removal_keys(kind) == Some(keys@.map_values(|s: String| s@)),
            None => spec_removal_keys(kind) is None,
        },
{
    match kind {
        TagKind::Mp4Ilst => {
            let tags = replaygain_tags();
            let mut keys: Vec<String> = Vec::new();
            let mut i: usize = 0;
            while i < tags.len()
                invariant
                    0 <= i <= tags@.len(),
                    tags@.map_values(|s: &str| s@) == spec_replaygain_tags(),
                    keys@.len() == i,
                    forall|j: int|
                        0 <= j < i ==> (#[trigger] keys@[j])@ == spec_mp4_atom_prefix()
                            + spec_replaygain_tags()[j],
                decreases tags@.len() - i,
            {
                proof {
                    assert(tags@.map_values(|s: &str| s@)[i as int] == tags@[i as int]@);
                }
                let key = String::from_str("----:COM.APPLE.ITUNES:").concat(tags[i]);
                keys.push(key);
                i = i + 1;
            }
            proof {
                let m = keys@.map_values(|s: String| s@);
                let sk = Seq::new(9, |i: int| spec_mp4_atom_prefix() + spec_replaygain_tags()[i]);
                assert(spec_replaygain_tags().len() == 9);
                assert forall|j: int| 0 <= j < 9 implies m[j] == sk[j] by {
                    assert(m[j] == keys@[j]@);
                }
                assert(m =~= sk);
            }
            Some(keys)
        },
        TagKind::VorbisComments => Some(upper_and_lower_keys()),
        TagKind::RiffInfo => Some(upper_and_lower_keys()),
        TagKind::AiffText => Some(upper_and_lower_keys()),
        TagKind::Ape => None,
        TagKind::Id3v1 => None,
        TagKind::Id3v2 => None,
    }
}

/// The eighteen keys of both letter cases, standard form first.
fn upper_and_lower_keys() -> (r: Vec<String>)
    ensures
        r@.map_values(|s: String| s@) == spec_replaygain_tags() + spec_replaygain_tags_lower(),
{
    let upper = replaygain_tags();
    let lower = replaygain_tags_lower();
    let mut keys: Vec<String> = Vec::new();
    let mut i: usize = 0;
    while i < upper.len()
        invariant
            0 <= i <= upper@.len(),
            upper@.map_values(|s: &str| s@) == spec_replaygain_tags(),
            keys@.len() == i,
            forall|j: int| 0 <= j < i ==> (#[trigger] keys@[j])@ == spec_replaygain_tags()[j],
        decreases upper@.len() - i,
    {
        proof {
            assert(upper@.map_values(|s: &str| s@)[i as int] == upper@[i as int]@);
        }
        keys.push(String::from_str(upper[i]));
        i = i + 1;
    }
    let mut k: usize = 0;
    while k < lower.len()
        invariant
            0 <= k <= lower@.len(),
            lower@.map_values(|s: &str| s@) == spec_replaygain_tags_lower(),
            keys@.len() == 9 + k,
            forall|j: int| 0 <= j < 9 ==> (#[trigger] keys@[j])@ == spec_replaygain_tags()[j],
            forall|j: int|
                0 <= j < k ==> (#[trigger] keys@[9 + j])@ == spec_replaygain_tags_lower()[j],
        decreases lower@.len() - k,
    {
        proof {
            assert(lower@.map_values(|s: &str| s@)[k as int] == lower@[k as int]@);
        }
        keys.push(String::from_str(lower[k]));
        k = k + 1;
    }
    proof {
        let m = keys@.map_values(|s: String| s@);
        let sk = spec_replaygain_tags() + spec_replaygain_tags_lower();
        assert(spec_replaygain_tags().len() == 9);
        assert(spec_replaygain_tags_lower().len() == 9);
        assert forall|j: int| 0 <= j < 18 implies m[j] == sk[j] by {
            assert(m[j] == keys@[j]@);
            if j >= 9 {
                assert(keys@[9 + (j - 9)]@ == spec_replaygain_tags_lower()[j - 9]);
            }
        }
        assert(m =~= sk);
    }
    keys
}

/// The full removal plan for a file's ReplayGain tags.  The dedicated FLAC
/// backend removes the nine standard keys from its Vorbis comments; the
/// generic backend removes one key list per tag container found in the
/// file.  `None` when some found container has no removal support yet.
pub fn delete_tags(tagger: TaggerKind, present: &Vec<TagKind>) -> (r: Option<Vec<Vec<String>>>)
    ensures
        match r {
            Some(plan) => match tagger {
                TaggerKind::Flac => plan@.len() == 1 && plan@[0]@.map_values(|s: String| s@)
                    == spec_replaygain_tags(),
                TaggerKind::Generic => plan@.len() == present@.len() && forall|k: int|
                    0 <= k < present@.len() ==> spec_removal_keys(present@[k]) == Some(
                        (#[trigger] plan@[k])@.map_values(|s: String| s@),
                    ),
            },
            None => tagger == TaggerKind::Generic && exists|k: int|
                0 <= k < present@.len() && spec_removal_keys(#[trigger] present@[k]) is None,
        },
{
    if tagger == TaggerKind::Flac {
        {
            let upper = replaygain_tags();
            let mut keys: Vec<String> = Vec::new();
            let mut i: usize = 0;
            while i < upper.len()
                invariant
                    0 <= i <= upper@.len(),
                    upper@.map_values(|s: &str| s@) == spec_replaygain_tags(),
                    keys@.len() == i,
                    forall|j: int|
                        0 <= j < i ==> (#[trigger] keys@[j])@ == spec_replaygain_tags()[j],
                decreases upper@.len() - i,
            {
                proof {
                    assert(upper@.map_values(|s: &str| s@)[i as int] == upper@[i as int]@);
                }
                keys.push(String::from_str(upper[i]));
                i = i + 1;
            }
            proof {
                assert(keys@.map_values(|s: String| s@) =~= spec_replaygain_tags());
            }
            let mut plan: Vec<Vec<String>> = Vec::new();
            plan.push(keys);
            Some(plan)
        }
    } else {
        {
            let mut plan: Vec<Vec<String>> = Vec::new();
            let mut i: usize = 0;
            while i < present.len()
                invariant
                    tagger == TaggerKind::Generic,
                    0 <= i <= present@.len(),
                    plan@.len() == i,
                    forall|k: int|
                        0 <= k < i ==> spec_removal_keys(present@[k]) == Some(
                            (#[trigger] plan@[k])@.map_values(|s: String| s@),
                        ),
                decreases present@.len() - i,
            {
                let kind = *tag_kind_at(present, i);
                match removal_keys(kind) {
                    Some(keys) => {
                        plan.push(keys);
                    },
                    None => {
                        proof {
                            assert(spec_removal_keys(present@[i as int]) is None);
                        }
                        return None;
                    },
                }
                i = i + 1;
            }
            proof {
                assert(tagger == TaggerKind::Generic);
            }
            Some(plan)
        }
    }
}

/// Reads one element of the found-tags list.
fn tag_kind_at(v: &Vec<TagKind>, i: usize) -> (r: &TagKind)
    requires
        i < v@.len(),
    ensures
        *r == v@[i as int],
{
    &v[i]
}

} // verus!
