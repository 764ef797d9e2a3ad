use loudgainer::audio::{domain_for_format, Audi, Audio, AudioRef, Domain, SourceFormat};
use loudgainer::error::Error;

#[test]
fn widen_and_narrow_round_trip() {
    // 16-bit -> 32-bit -> 16-bit recovers the original samples exactly.
    let original = vec![0i16, 1, -1, 100, -100, 32767, -32768];
    let buffer = Audio::S16(original.clone());
    let widened = buffer.convert(Domain::S32).unwrap();
    let wide = widened.as_audio_ref().get_i32().unwrap().to_vec();
    assert_eq!(wide, vec![0, 65536, -65536, 6553600, -6553600, 2147418112, -2147483648]);
    let back = widened.convert(Domain::S16).unwrap();
    assert_eq!(back.as_audio_ref().get_i16().unwrap(), original.as_slice());
}

#[test]
fn same_domain_conversion_is_exact_copy() {
    let buffer = Audio::F32(vec![0x3f800000u32, 0xbf800000]);
    let copy = buffer.convert(Domain::F32).unwrap();
    assert_eq!(copy.as_audio_ref().get_f32().unwrap(), &[0x3f800000u32, 0xbf800000][..]);
}

#[test]
fn float_domain_conversions_are_not_offered() {
    let ints = Audio::S16(vec![1, 2, 3]);
    assert!(ints.convert(Domain::F32).is_none());
    assert!(ints.convert(Domain::F64).is_none());
    let floats = Audio::F64(vec![0u64]);
    assert!(floats.convert(Domain::S16).is_none());
    assert!(floats.convert(Domain::F32).is_none());
}

#[test]
fn append_same_domain() {
    let mut buffer = Audio::S16(vec![1, 2]);
    buffer.extend_from_slice(AudioRef::from_i16(&[3, 4])).unwrap();
    assert_eq!(buffer.as_audio_ref().get_i16().unwrap(), &[1, 2, 3, 4][..]);
    assert_eq!(buffer.len(), 4);
}

#[test]
fn append_mixed_domains_is_rejected() {
    let mut buffer = Audio::S16(vec![1, 2]);
    let err = buffer.extend_from_slice(AudioRef::from_i32(&[3])).unwrap_err();
    assert_eq!(err, Error::DomainMismatch);
    // The buffer is left untouched.
    assert_eq!(buffer.as_audio_ref().get_i16().unwrap(), &[1, 2][..]);
}

#[test]
fn audio_ref_round_trips_to_owned() {
    let samples = [10i32, -20, 30];
    let r = AudioRef::from_i32(&samples);
    let owned = r.to_owned();
    assert_eq!(owned.as_audio_ref().get_i32().unwrap(), &samples[..]);
    assert!(owned.as_audio_ref().get_i16().is_none());
    assert!(owned.as_audio_ref().get_f32().is_none());
    assert!(owned.as_audio_ref().get_f64().is_none());
}

#[test]
fn domain_selection_rule() {
    assert_eq!(domain_for_format(SourceFormat::U8), Domain::S16);
    assert_eq!(domain_for_format(SourceFormat::U16), Domain::S16);
    assert_eq!(domain_for_format(SourceFormat::S8), Domain::S16);
    assert_eq!(domain_for_format(SourceFormat::S16), Domain::S16);
    assert_eq!(domain_for_format(SourceFormat::U24), Domain::S32);
    assert_eq!(domain_for_format(SourceFormat::U32), Domain::S32);
    assert_eq!(domain_for_format(SourceFormat::S24), Domain::S32);
    assert_eq!(domain_for_format(SourceFormat::S32), Domain::S32);
    assert_eq!(domain_for_format(SourceFormat::F32), Domain::F32);
    assert_eq!(domain_for_format(SourceFormat::F64), Domain::F64);
}

#[test]
fn flac_sixteen_bit_depth_lands_in_s16() {
    let samples = vec![0i32, 5, -5, 32767, -32768];
    let audi = Audi::from_flac_samples(&samples, 2, 44100, 16).unwrap();
    assert_eq!(audi.channels, 2);
    assert_eq!(audi.sample_rate, 44100);
    assert_eq!(audi.bits, 16);
    assert_eq!(audi.audio.as_audio_ref().get_i16().unwrap(), &[0i16, 5, -5, 32767, -32768][..]);
}

#[test]
fn flac_eight_bit_depth_lands_in_s16() {
    let samples = vec![0i32, 127, -128];
    let audi = Audi::from_flac_samples(&samples, 1, 8000, 8).unwrap();
    assert_eq!(audi.audio.as_audio_ref().get_i16().unwrap(), &[0i16, 127, -128][..]);
}

#[test]
fn flac_twenty_four_bit_depth_is_shifted_to_full_scale() {
    // 24-bit samples are left-shifted by 8 bits into the 32-bit container.
    let samples = vec![1i32, -1, 8_388_607, -8_388_608];
    let audi = Audi::from_flac_samples(&samples, 2, 96000, 24).unwrap();
    assert_eq!(
        audi.audio.as_audio_ref().get_i32().unwrap(),
        &[256i32, -256, 2_147_483_392, -2_147_483_648][..]
    );
}

#[test]
fn flac_thirty_two_bit_depth_is_kept() {
    let samples = vec![7i32, -7];
    let audi = Audi::from_flac_samples(&samples, 1, 48000, 32).unwrap();
    assert_eq!(audi.audio.as_audio_ref().get_i32().unwrap(), &[7i32, -7][..]);
}

#[test]
fn flac_unsupported_bit_depth_fails() {
    let samples = vec![0i32];
    let err = Audi::from_flac_samples(&samples, 1, 44100, 33).unwrap_err();
    assert_eq!(err, Error::UnsupportedConfiguration);
}
