use vstd::prelude::*;
use vstd::arithmetic::power2::*;
use vstd::arithmetic::div_mod::*;
use crate::error::Error;

verus! {

/// The four numeric domains a decoded sample buffer can live in.  A buffer's
/// domain is selected once, from the source stream's reported sample format,
/// and never changes.
#[derive(Clone, Copy, Debug, PartialEq, Eq, Structural)]
pub enum Domain {
    /// 16-bit signed integer samples.
    S16,
    /// 32-bit signed integer samples, full-scale normalized.
    S32,
    /// 32-bit IEEE 754 samples.
    F32,
    /// 64-bit IEEE 754 samples.
    F64,
}

/// An owned, homogeneous buffer of decoded samples, interleaved by channel
/// (frame-major).  Samples of the two floating-point domains are carried as
/// their IEEE 754 bit patterns, so the buffer moves them losslessly without
/// ever doing floating-point arithmetic; only the measurement engine at the
/// crate's boundary reinterprets them.
#[derive(Debug)]
pub enum Audio {
    /// 16-bit signed integer samples.
    S16(Vec<i16>),
    /// 32-bit signed integer samples.
    S32(Vec<i32>),
    /// Bit patterns of 32-bit IEEE 754 samples.
    F32(Vec<u32>),
    /// Bit patterns of 64-bit IEEE 754 samples.
    F64(Vec<u64>),
}

/// A borrowed run of samples in a single domain, as a decoder hands them
/// over chunk by chunk.
pub enum AudioRef<'a> {
    /// 16-bit signed integer samples.
    S16(&'a [i16]),
    /// 32-bit signed integer samples.
    S32(&'a [i32]),
    /// Bit patterns of 32-bit IEEE 754 samples.
    F32(&'a [u32]),
    /// Bit patterns of 64-bit IEEE 754 samples.
    F64(&'a [u64]),
}

impl Audio {
    /// The buffer's numeric domain.
    pub open spec fn domain(&self) -> Domain {
        match self {
            Audio::S16(_) => Domain::S16,
            Audio::S32(_) => Domain::S32,
            Audio::F32(_) => Domain::F32,
            Audio::F64(_) => Domain::F64,
        }
    }

    /// The buffer's samples as mathematical integers: the numeric value for
    /// the integer domains, the bit pattern for the floating-point domains.
    pub open spec fn values(&self) -> Seq<int> {
        match self {
            Audio::S16(v) => v@.map_values(|x: i16| x as int),
            Audio::S32(v) => v@.map_values(|x: i32| x as int),
            Audio::F32(v) => v@.map_values(|x: u32| x as int),
            Audio::F64(v) => v@.map_values(|x: u64| x as int),
        }
    }

    /// Number of samples held.
    pub fn len(&self) -> (r: usize)
        ensures
            r == self.values().len(),
    {
        match self {
            Audio::S16(v) => v.len(),
            Audio::S32(v) => v.len(),
            Audio::F32(v) => v.len(),
            Audio::F64(v) => v.len(),
        }
    }

    /// Borrows the whole buffer as a sample slice of the same domain.
    pub fn as_audio_ref<'a>(&'a self) -> (r: AudioRef<'a>)
        ensures
            r.domain() == self.domain(),
            r.values() == self.values(),
    {
        match self {
            Audio::S16(v) => AudioRef::S16(v.as_slice()),
            Audio::S32(v) => AudioRef::S32(v.as_slice()),
            Audio::F32(v) => AudioRef::F32(v.as_slice()),
            Audio::F64(v) => AudioRef::F64(v.as_slice()),
        }
    }

    /// Appends a same-domain run of samples.  Mixing domains within one
    /// buffer is a programmer error, reported as `DomainMismatch` with the
    /// buffer left untouched.
    pub fn extend_from_slice(&mut self, samples: AudioRef<'_>) -> (r: Result<(), Error>)
        ensures
            match r {
                Ok(_) => {
                    &&& samples.domain() == old(self).domain()
                    &&& final(self).domain() == old(self).domain()
                    &&& final(self).values() == old(self).values() + samples.values()
                },
                Err(e) => {
                    &&& e == Error::DomainMismatch
                    &&& samples.domain() != old(self).domain()
                    &&& *final(self) == *old(self)
                },
            },
    {
        match self {
            Audio::S16(v) => match samples {
                AudioRef::S16(s) => {
                    let ghost pre = v@;
                    append_copy(v, s);
                    proof {
                        lemma_map_values_concat::<i16>(pre, s@, |x: i16| x as int);
                    }
                    Ok(())
                },
                _ => Err(Error::DomainMismatch),
            },
            Audio::S32(v) => match samples {
                AudioRef::S32(s) => {
                    let ghost pre = v@;
                    append_copy(v, s);
                    proof {
                        lemma_map_values_concat::<i32>(pre, s@, |x: i32| x as int);
                    }
                    Ok(())
                },
                _ => Err(Error::DomainMismatch),
            },
            Audio::F32(v) => match samples {
                AudioRef::F32(s) => {
                    let ghost pre = v@;
                    append_copy(v, s);
                    proof {
                        lemma_map_values_concat::<u32>(pre, s@, |x: u32| x as int);
                    }
                    Ok(())
                },
                _ => Err(Error::DomainMismatch),
            },
            Audio::F64(v) => match samples {
                AudioRef::F64(s) => {
                    let ghost pre = v@;
                    append_copy(v, s);
                    proof {
                        lemma_map_values_concat::<u64>(pre, s@, |x: u64| x as int);
                    }
                    Ok(())
                },
                _ => Err(Error::DomainMismatch),
            },
        }
    }
}

impl<'a> AudioRef<'a> {
    /// The slice's numeric domain.
    pub open spec fn domain(&self) -> Domain {
        match self {
            AudioRef::S16(_) => Domain::S16,
            AudioRef::S32(_) => Domain::S32,
            AudioRef::F32(_) => Domain::F32,
            AudioRef::F64(_) => Domain::F64,
        }
    }

    /// The slice's samples as mathematical integers, as in [`Audio::values`].
    pub open spec fn values(&self) -> Seq<int> {
        match self {
            AudioRef::S16(s) => s@.map_values(|x: i16| x as int),
            AudioRef::S32(s) => s@.map_values(|x: i32| x as int),
            AudioRef::F32(s) => s@.map_values(|x: u32| x as int),
            AudioRef::F64(s) => s@.map_values(|x: u64| x as int),
        }
    }

    /// Wraps a run of 16-bit integer samples.
    pub fn from_i16(data: &'a [i16]) -> (r: Self)
        ensures
            r.domain() == Domain::S16,
            r.values() == data@.map_values(|x: i16| x as int),
    {
        AudioRef::S16(data)
    }

    /// Wraps a run of 32-bit integer samples.
    pub fn from_i32(data: &'a [i32]) -> (r: Self)
        ensures
            r.domain() == Domain::S32,
            r.values() == data@.map_values(|x: i32| x as int),
    {
        AudioRef::S32(data)
    }

    /// Wraps a run of 32-bit float samples, given as their bit patterns.
    pub fn from_f32(data: &'a [u32]) -> (r: Self)
        ensures
            r.domain() == Domain::F32,
            r.values() == data@.map_values(|x: u32| x as int),
    {
        AudioRef::F32(data)
    }

    /// Wraps a run of 64-bit float samples, given as their bit patterns.
    pub fn from_f64(data: &'a [u64]) -> (r: Self)
        ensures
            r.domain() == Domain::F64,
            r.values() == data@.map_values(|x: u64| x as int),
    {
        AudioRef::F64(data)
    }

    /// The underlying 16-bit integer samples, when that is the domain.
    pub fn get_i16(&self) -> (r: Option<&'a [i16]>)
        ensures
            match r {
                Some(s) => self.domain() == Domain::S16 && self.values() == s@.map_values(
                    |x: i16| x as int,
                ),
                None => self.domain() != Domain::S16,
            },
    {
        match self {
            AudioRef::S16(s) => Some(s),
            _ => None,
        }
    }

    /// The underlying 32-bit integer samples, when that is the domain.
    pub fn get_i32(&self) -> (r: Option<&'a [i32]>)
        ensures
            match r {
                Some(s) => self.domain() == Domain::S32 && self.values() == s@.map_values(
                    |x: i32| x as int,
                ),
                None => self.domain() != Domain::S32,
            },
    {
        match self {
            AudioRef::S32(s) => Some(s),
            _ => None,
        }
    }

    /// The underlying 32-bit float bit patterns, when that is the domain.
    pub fn get_f32(&self) -> (r: Option<&'a [u32]>)
        ensures
            match r {
                Some(s) => self.domain() == Domain::F32 && self.values() == s@.map_values(
                    |x: u32| x as int,
                ),
                None => self.domain() != Domain::F32,
            },
    {
        match self {
            AudioRef::F32(s) => Some(s),
            _ => None,
        }
    }

    /// The underlying 64-bit float bit patterns, when that is the domain.
    pub fn get_f64(&self) -> (r: Option<&'a [u64]>)
        ensures
            match r {
                Some(s) => self.domain() == Domain::F64 && self.values() == s@.map_values(
                    |x: u64| x as int,
                ),
                None => self.domain() != Domain::F64,
            },
    {
        match self {
            AudioRef::F64(s) => Some(s),
            _ => None,
        }
    }

    /// Copies the borrowed samples into an owned buffer of the same domain.
    pub fn to_owned(&self) -> (r: Audio)
        ensures
            r.domain() == self.domain(),
            r.values() == self.values(),
    {
        match self {
            AudioRef::S16(s) => Audio::S16(copy_slice(s)),
            AudioRef::S32(s) => Audio::S32(copy_slice(s)),
            AudioRef::F32(s) => Audio::F32(copy_slice(s)),
            AudioRef::F64(s) => Audio::F64(copy_slice(s)),
        }
    }
}

/// Copies a slice into a fresh vector.
fn copy_slice<T: Copy>(s: &[T]) -> (r: Vec<T>)
    ensures
        r@ == s@,
{
    let mut r: Vec<T> = Vec::new();
    let mut i: usize = 0;
    while i < s.len()
        invariant
            0 <= i <= s@.len(),
            r@ == s@.subrange(0, i as int),
        decreases s@.len() - i,
    {
        r.push(*slice_get(s, i));
        proof {
            assert(r@ =~= s@.subrange(0, i + 1));
        }
        i = i + 1;
    }
    proof {
        assert(r@ =~= s@);
    }
    r
}

/// Appends a slice to a vector element by element.
fn append_copy<T: Copy>(dst: &mut Vec<T>, src: &[T])
    ensures
        final(dst)@ == old(dst)@ + src@,
{
    let mut i: usize = 0;
    while i < src.len()
        invariant
            0 <= i <= src@.len(),
            dst@ == old(dst)@ + src@.subrange(0, i as int),
        decreases src@.len() - i,
    {
        dst.push(*slice_get(src, i));
        proof {
            assert(dst@ =~= old(dst)@ + src@.subrange(0, i + 1));
        }
        i = i + 1;
    }
    proof {
        assert(dst@ =~= old(dst)@ + src@);
    }
}

/// Reads one element of a slice.
fn slice_get<T>(s: &[T], i: usize) -> (r: &T)
    requires
        i < s@.len(),
    ensures
        *r == s@[i as int],
{
    &s[i]
}

/// Mapping a concatenation equals concatenating the mappings.
proof fn lemma_map_values_concat<T>(a: Seq<T>, b: Seq<T>, f: spec_fn(T) -> int)
    ensures
        (a + b).map_values(f) == a.map_values(f) + b.map_values(f),
{
    assert((a + b).map_values(f) =~= a.map_values(f) + b.map_values(f));
}

/// Whether a sample-domain conversion stays within what the crate computes
/// itself: a same-domain copy, or a move between the two integer domains.
pub open spec fn convertible(from: Domain, to: Domain) -> bool {
    ||| from == to
    ||| (from == Domain::S16 && to == Domain::S32)
    ||| (from == Domain::S32 && to == Domain::S16)
}

/// What a conversion does to the sample values: a same-domain copy keeps
/// them; widening 16-bit samples into the 32-bit domain multiplies by 2^16,
/// placing the source's most significant bit at the container's top bit;
/// narrowing keeps the top 16 bits (a floor by 2^16).
pub open spec fn spec_convert(vals: Seq<int>, from: Domain, to: Domain) -> Seq<int> {
    if from == to {
        vals
    } else if from == Domain::S16 && to == Domain::S32 {
        vals.map_values(|x: int| x * 0x10000)
    } else {
        vals.map_values(|x: int| x / 0x10000)
    }
}

/// Widening is lossless: a 16-bit integer buffer taken to the 32-bit integer
/// domain and back yields the original values exactly.
pub proof fn lemma_integer_round_trip(vals: Seq<int>)
    ensures
        spec_convert(spec_convert(vals, Domain::S16, Domain::S32), Domain::S32, Domain::S16)
            == vals,
{
    let widened = vals.map_values(|x: int| x * 0x10000);
    let back = widened.map_values(|x: int| x / 0x10000);
    assert forall|i: int| 0 <= i < vals.len() implies back[i] == vals[i] by {
        lemma_div_multiples_vanish(vals[i], 0x10000);
        assert(vals[i] * 0x10000 == 0x10000 * vals[i]) by (nonlinear_arith);
    }
    assert(back =~= vals);
}

/// Widens one 16-bit sample into the 32-bit domain.
fn widen_sample(x: i16) -> (r: i32)
    ensures
        r as int == x as int * 0x10000,
{
    (x as i32) * 0x10000
}

/// Narrows one 32-bit sample into the 16-bit domain, keeping the top bits.
fn narrow_sample(x: i32) -> (r: i16)
    ensures
        r as int == x as int / 0x10000,
{
    if x >= 0 {
        let q: u32 = (x as u32) / 0x10000;
        proof {
            lemma_div_is_ordered(x as int, 0x7FFFFFFF, 0x10000);
            lemma_fundamental_div_mod_converse_div(0x7FFFFFFF, 0x10000, 0x7FFF, 0xFFFF);
        }
        q as i16
    } else {
        let n: u32 = (-(x as i64)) as u32;
        let m: u32 = (n - 1) / 0x10000;
        proof {
            let xi = x as int;
            let ni = n as int;
            let q = (ni - 1) / 0x10000;
            let r = (ni - 1) % 0x10000;
            lemma_fundamental_div_mod(ni - 1, 0x10000);
            assert(xi == (-q - 1) * 0x10000 + (0xFFFF - r)) by (nonlinear_arith)
                requires
                    xi == -ni,
                    ni - 1 == q * 0x10000 + r,
            ;
            lemma_fundamental_div_mod_converse_div(xi, 0x10000, -q - 1, 0xFFFF - r);
            lemma_div_is_ordered(0, ni - 1, 0x10000);
            lemma_div_is_ordered(ni - 1, 0x7FFFFFFF, 0x10000);
            lemma_fundamental_div_mod_converse_div(0x7FFFFFFF, 0x10000, 0x7FFF, 0xFFFF);
        }
        let q: i32 = -(m as i32) - 1;
        q as i16
    }
}

impl Audio {
    /// Converts the buffer into a target numeric domain, per the domain's
    /// native rule (see [`spec_convert`]).  A same-domain conversion is an
    /// exact copy.  Conversions into or out of the floating-point domains
    /// take floating-point arithmetic, which only the measurement engine at
    /// the crate's boundary performs; no stage of the pipeline consumes
    /// them, and they are answered with `None`.
    pub fn convert(&self, target: Domain) -> (r: Option<Audio>)
        ensures
            match r {
                Some(out) => {
                    &&& convertible(self.domain(), target)
                    &&& out.domain() == target
                    &&& out.values() == spec_convert(self.values(), self.domain(), target)
                },
                None => !convertible(self.domain(), target),
            },
    {
        match self {
            Audio::S16(v) => match target {
                Domain::S16 => Some(Audio::S16(copy_slice(v.as_slice()))),
                Domain::S32 => {
                    let mut out: Vec<i32> = Vec::new();
                    let mut i: usize = 0;
                    while i < v.len()
                        invariant
                            0 <= i <= v@.len(),
                            out@.len() == i,
                            forall|j: int|
                                0 <= j < i ==> out@[j] as int == v@[j] as int * 0x10000,
                        decreases v@.len() - i,
                    {
                        out.push(widen_sample(*slice_get(v.as_slice(), i)));
                        i = i + 1;
                    }
                    proof {
                        assert(Audio::S32(out).values() =~= spec_convert(
                            self.values(),
                            Domain::S16,
                            Domain::S32,
                        ));
                    }
                    Some(Audio::S32(out))
                },
                _ => None,
            },
            Audio::S32(v) => match target {
                Domain::S32 => Some(Audio::S32(copy_slice(v.as_slice()))),
                Domain::S16 => {
                    let mut out: Vec<i16> = Vec::new();
                    let mut i: usize = 0;
                    while i < v.len()
                        invariant
                            0 <= i <= v@.len(),
                            out@.len() == i,
                            forall|j: int|
                                0 <= j < i ==> out@[j] as int == v@[j] as int / 0x10000,
                        decreases v@.len() - i,
                    {
                        out.push(narrow_sample(*slice_get(v.as_slice(), i)));
                        i = i + 1;
                    }
                    proof {
                        assert(Audio::S16(out).values() =~= spec_convert(
                            self.values(),
                            Domain::S32,
                            Domain::S16,
                        ));
                    }
                    Some(Audio::S16(out))
                },
                _ => None,
            },
            Audio::F32(v) => match target {
                Domain::F32 => Some(Audio::F32(copy_slice(v.as_slice()))),
                _ => None,
            },
            Audio::F64(v) => match target {
                Domain::F64 => Some(Audio::F64(copy_slice(v.as_slice()))),
                _ => None,
            },
        }
    }
}

/// A sample within its announced depth stays within the 32-bit container
/// after full-scale normalization.
proof fn lemma_scaled_sample_in_range(s: int, hi: int, factor: int)
    by (nonlinear_arith)
    requires
        -hi <= s < hi,
        factor >= 1,
        hi >= 1,
        hi * factor == 0x80000000,
    ensures
        -0x80000000 <= s * factor < 0x80000000,
{
}

/// A source stream's reported sample format, as a decoder announces it.
#[derive(Clone, Copy, Debug, PartialEq, Eq, Structural)]
pub enum SourceFormat {
    /// Unsigned integers of at most 8 bits.
    U8,
    /// Unsigned integers of at most 16 bits.
    U16,
    /// Unsigned integers of at most 24 bits.
    U24,
    /// Unsigned integers of at most 32 bits.
    U32,
    /// Signed integers of at most 8 bits.
    S8,
    /// Signed integers of at most 16 bits.
    S16,
    /// Signed integers of at most 24 bits.
    S24,
    /// Signed integers of at most 32 bits.
    S32,
    /// Native 32-bit floats.
    F32,
    /// Native 64-bit floats.
    F64,
}

/// The domain-selection rule: integer formats of at most 16 bits land in the
/// 16-bit domain; wider integer formats land in the full-scale-normalized
/// 32-bit domain; native float formats keep their width.
pub open spec fn spec_domain_for(f: SourceFormat) -> Domain {
    match f {
        SourceFormat::U8 => Domain::S16,
        SourceFormat::U16 => Domain::S16,
        SourceFormat::S8 => Domain::S16,
        SourceFormat::S16 => Domain::S16,
        SourceFormat::U24 => Domain::S32,
        SourceFormat::U32 => Domain::S32,
        SourceFormat::S24 => Domain::S32,
        SourceFormat::S32 => Domain::S32,
        SourceFormat::F32 => Domain::F32,
        SourceFormat::F64 => Domain::F64,
    }
}

/// Selects the buffer domain for a stream's sample format.  Applied once,
/// on the first decoded packet; every later packet must decode into the
/// same format's domain.
pub fn domain_for_format(f: SourceFormat) -> (r: Domain)
    ensures
        r == spec_domain_for(f),
{
    match f {
        SourceFormat::U8 => Domain::S16,
        SourceFormat::U16 => Domain::S16,
        SourceFormat::S8 => Domain::S16,
        SourceFormat::S16 => Domain::S16,
        SourceFormat::U24 => Domain::S32,
        SourceFormat::U32 => Domain::S32,
        SourceFormat::S24 => Domain::S32,
        SourceFormat::S32 => Domain::S32,
        SourceFormat::F32 => Domain::F32,
        SourceFormat::F64 => Domain::F64,
    }
}

/// A fully decoded track: its sample buffer and the stream facts the
/// measurement stage needs.
#[derive(Debug)]
pub struct Audi {
    /// The accumulated samples, interleaved by channel.
    pub audio: Audio,
    /// Number of channels; at least one.
    pub channels: u32,
    /// Sampling rate in Hz; positive.
    pub sample_rate: u32,
    /// Source bit depth; zero when the container does not report one.
    pub bits: u8,
}

impl Audi {
    /// The stream facts are within their documented ranges.
    pub open spec fn wf(&self) -> bool {
        self.channels >= 1 && self.sample_rate >= 1
    }

    /// Builds the track buffer for the dedicated lossless fast path from raw
    /// decoded samples.  Bit depths up to 16 map to the 16-bit domain by a
    /// narrowing cast; depths 17 through 32 map to the 32-bit domain,
    /// multiplied by 2^(32-bits) so the source's most significant bit
    /// occupies the container's top bit; any other depth is a fatal
    /// configuration error for the file.  The caller vouches that each raw
    /// sample fits its announced depth, which the lossless decoder
    /// guarantees.
    pub fn from_flac_samples(samples: &Vec<i32>, channels: u32, sample_rate: u32, bits: u8) -> (r:
        Result<Audi, Error>)
        requires
            channels >= 1,
            sample_rate >= 1,
            bits <= 16 ==> forall|i: int|
                0 <= i < samples@.len() ==> -0x8000 <= #[trigger] samples@[i] <= 0x7FFF,
            17 <= bits <= 32 ==> forall|i: int|
                0 <= i < samples@.len() ==> -(pow2((bits - 1) as nat) as int) <= #[trigger] samples@[i]
                    < pow2((bits - 1) as nat) as int,
        ensures
            match r {
                Ok(a) => {
                    &&& bits <= 32
                    &&& a.wf()
                    &&& a.channels == channels
                    &&& a.sample_rate == sample_rate
                    &&& a.bits == bits
                    &&& a.audio.values().len() == samples@.len()
                    &&& (bits <= 16 ==> a.audio.domain() == Domain::S16 && forall|i: int|
                        0 <= i < samples@.len() ==> #[trigger] a.audio.values()[i] == samples@[i] as int)
                    &&& (17 <= bits ==> a.audio.domain() == Domain::S32 && forall|i: int|
                        0 <= i < samples@.len() ==> #[trigger] a.audio.values()[i] == samples@[i] as int
                            * pow2((32 - bits) as nat) as int)
                },
                Err(e) => e == Error::UnsupportedConfiguration && bits > 32,
            },
    {
        if bits <= 16 {
            let mut out: Vec<i16> = Vec::new();
            let mut i: usize = 0;
            while i < samples.len()
                invariant
                    0 <= i <= samples@.len(),
                    out@.len() == i,
                    bits <= 16,
                    forall|j: int|
                        0 <= j < samples@.len() ==> -0x8000 <= #[trigger] samples@[j] <= 0x7FFF,
                    forall|j: int| 0 <= j < i ==> out@[j] as int == samples@[j] as int,
                decreases samples@.len() - i,
            {
                out.push((*slice_get(samples.as_slice(), i)) as i16);
                i = i + 1;
            }
            Ok(Audi { audio: Audio::S16(out), channels, sample_rate, bits })
        } else if bits <= 32 {
            let shift: u8 = 32 - bits;
            let mut factor: i64 = 1;
            let mut k: u8 = 0;
            proof {
                lemma2_to64();
            }
            while k < shift
                invariant
                    0 <= k <= shift,
                    shift <= 15,
                    factor == pow2(k as nat),
                    factor <= pow2(shift as nat),
                decreases shift - k,
            {
                proof {
                    lemma2_to64();
                    lemma_pow2_unfold((k + 1) as nat);
                    lemma_pow2_strictly_increases(k as nat, (k + 1) as nat);
                    if ((k + 1) as nat) < (shift as nat) {
                        lemma_pow2_strictly_increases((k + 1) as nat, shift as nat);
                    }
                    lemma_pow2_strictly_increases(shift as nat, 16);
                }
                factor = factor * 2;
                k = k + 1;
            }
            proof {
                lemma2_to64();
                lemma_pow2_strictly_increases(shift as nat, 16);
                if (shift as nat) < 15 {
                    lemma_pow2_strictly_increases(shift as nat, 15);
                }
            }
            let ghost hi = pow2((bits - 1) as nat) as int;
            proof {
                lemma_pow2_adds((bits - 1) as nat, (32 - bits) as nat);
                lemma_pow2_pos((bits - 1) as nat);
            }
            let mut out: Vec<i32> = Vec::new();
            let mut i: usize = 0;
            while i < samples.len()
                invariant
                    0 <= i <= samples@.len(),
                    out@.len() == i,
                    17 <= bits <= 32,
                    factor == pow2((32 - bits) as nat),
                    1 <= factor <= 0x8000,
                    hi == pow2((bits - 1) as nat) as int,
                    hi * factor == 0x80000000,
                    hi >= 1,
                    forall|j: int|
                        0 <= j < samples@.len() ==> -hi <= #[trigger] samples@[j] < hi,
                    forall|j: int|
                        0 <= j < i ==> out@[j] as int == samples@[j] as int * factor,
                decreases samples@.len() - i,
            {
                let s: i32 = *slice_get(samples.as_slice(), i);
                proof {
                    lemma_scaled_sample_in_range(s as int, hi, factor as int);
                }
                let prod: i64 = (s as i64) * factor;
                out.push(prod as i32);
                i = i + 1;
            }
            Ok(Audi { audio: Audio::S32(out), channels, sample_rate, bits })
        } else {
            Err(Error::UnsupportedConfiguration)
        }
    }
}

} // verus!
