use loudgainer::options::{
    id3v2version_from_char, resolve_options, tagmode_from_char, tagmode_from_str, Id3v2version,
    Mode, OutputMode, RawOptions, Tagmode,
};

fn raw_defaults() -> RawOptions {
    RawOptions {
        files: vec![String::from("a.flac"), String::from("b.ogg")],
        track: true,
        album: false,
        clip: false,
        noclip: false,
        maxtpl: None,
        pregain: None,
        tagmode: Tagmode::S,
        lowercase: false,
        striptags: false,
        id3v2version: Id3v2version::V4,
        output: false,
        output_new: false,
    }
}

#[test]
fn default_options_resolve_conservatively() {
    let opts = resolve_options(raw_defaults());
    assert_eq!(opts.files, vec![String::from("a.flac"), String::from("b.ogg")]);
    assert_eq!(opts.output, OutputMode::Human);
    assert_eq!(opts.units, "dB");
    assert_eq!(opts.mode, Mode::Noop);
    assert_eq!(opts.pre_gain, 0);
    // The ceiling defaults to -1 dBTP.
    assert_eq!(opts.max_true_peak_level, -100_000);
    assert!(!opts.do_album);
    assert!(opts.warn_clip);
    assert!(!opts.clip_prevention);
    assert_eq!(opts.id3v2version, Id3v2version::V4);
}

#[test]
fn lu_tag_mode_switches_units_and_mode() {
    let mut raw = raw_defaults();
    raw.tagmode = Tagmode::L;
    let opts = resolve_options(raw);
    assert_eq!(opts.units, "LU");
    assert_eq!(opts.mode, Mode::Write);
}

#[test]
fn tag_modes_map_to_write_modes() {
    let mut raw = raw_defaults();
    raw.tagmode = Tagmode::D;
    assert_eq!(resolve_options(raw).mode, Mode::Delete);
    let mut raw = raw_defaults();
    raw.tagmode = Tagmode::I;
    assert_eq!(resolve_options(raw).mode, Mode::WriteExtended);
    let mut raw = raw_defaults();
    raw.tagmode = Tagmode::E;
    assert_eq!(resolve_options(raw).mode, Mode::WriteExtended);
}

#[test]
fn pre_gain_and_ceiling_become_fixed_point() {
    let mut raw = raw_defaults();
    raw.pregain = Some(-5);
    raw.maxtpl = Some(-2);
    let opts = resolve_options(raw);
    assert_eq!(opts.pre_gain, -500_000);
    assert_eq!(opts.max_true_peak_level, -200_000);
    // An explicit ceiling implies clip prevention.
    assert!(opts.clip_prevention);
}

#[test]
fn noclip_enables_prevention_with_default_ceiling() {
    let mut raw = raw_defaults();
    raw.noclip = true;
    let opts = resolve_options(raw);
    assert!(opts.clip_prevention);
    assert_eq!(opts.max_true_peak_level, -100_000);
}

#[test]
fn clip_switch_silences_warnings() {
    let mut raw = raw_defaults();
    raw.clip = true;
    assert!(!resolve_options(raw).warn_clip);
}

#[test]
fn output_switches_pick_the_list_styles() {
    let mut raw = raw_defaults();
    raw.output = true;
    assert_eq!(resolve_options(raw).output, OutputMode::Old);
    let mut raw = raw_defaults();
    raw.output_new = true;
    assert_eq!(resolve_options(raw).output, OutputMode::New);
}

#[test]
fn tagmode_letters_parse_in_either_case() {
    assert_eq!(tagmode_from_char('d'), Some(Tagmode::D));
    assert_eq!(tagmode_from_char('I'), Some(Tagmode::I));
    assert_eq!(tagmode_from_char('e'), Some(Tagmode::E));
    assert_eq!(tagmode_from_char('L'), Some(Tagmode::L));
    assert_eq!(tagmode_from_char('s'), Some(Tagmode::S));
    assert_eq!(tagmode_from_char('x'), None);
}

#[test]
fn tagmode_strings_parse_by_first_letter() {
    assert_eq!(tagmode_from_str("i"), Some(Tagmode::I));
    assert_eq!(tagmode_from_str("Extra"), Some(Tagmode::E));
    assert_eq!(tagmode_from_str(""), None);
    assert_eq!(tagmode_from_str("zzz"), None);
}

#[test]
fn only_id3v2_revisions_three_and_four_parse() {
    assert_eq!(id3v2version_from_char('3'), Some(Id3v2version::V3));
    assert_eq!(id3v2version_from_char('4'), Some(Id3v2version::V4));
    assert_eq!(id3v2version_from_char('5'), None);
}
