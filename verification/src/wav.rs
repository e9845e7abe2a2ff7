//! WAV images: what the service accepts (16 kHz, mono, 16-bit PCM, at least
//! one sample), how decoded PCM is written out as such an image, and how long
//! an image plays.
//!
//! Reading the RIFF structure is left to `hound`; the rules on what was read
//! are stated and proved here.

use crate::decimal::{decimal_text, format_u64};
use crate::framing::u32_le;
use vstd::prelude::*;
use vstd::string::*;

verus! {

pub const SAMPLE_RATE: u32 = 16000;

pub const CHANNELS: u16 = 1;

pub const BITS_PER_SAMPLE: u16 = 16;

/// The most samples that one image can hold: its size fields are 32 bits wide.
pub const MAX_WAV_SAMPLES: usize = 2147483629;

/// What `hound` reports of the head of a WAV image.
#[derive(Debug, Clone, Copy, PartialEq, Eq)]
pub struct WavProbe {
    pub channels: u16,
    pub sample_rate: u32,
    pub bits_per_sample: u16,
    /// Samples in the data chunk, all channels together.
    pub sample_count: u32,
    /// What reading the first sample as a 16-bit integer gives: nothing where
    /// the data chunk is empty, nothing inside where the read fails.
    pub first_sample: Option<Option<i16>>,
}

/// What `hound` makes of an image: the probe, or the text of its error.
pub uninterp spec fn wav_probe(data: Seq<u8>) -> Result<WavProbe, Seq<char>>;

/// What `hound` reads as the 16-bit samples of an image, or the text of its
/// error.
pub uninterp spec fn wav_samples(data: Seq<u8>) -> Result<Seq<i16>, Seq<char>>;

/// `hound::WavReader::new` on the bytes, then `spec`, `len` and the first item
/// of `samples::<i16>`, whose error is dropped: the result is the one that
/// `wav_probe` names. An error of `new` comes back as its text.
#[verifier::external_body]
pub(crate) fn probe_wav(data: &[u8]) -> (r: Result<WavProbe, String>)
    ensures
        match r {
            Ok(p) => wav_probe(data@) == Ok::<WavProbe, Seq<char>>(p),
            Err(m) => wav_probe(data@) == Err::<WavProbe, Seq<char>>(m@),
        },
{
    let mut reader = hound::WavReader::new(std::io::Cursor::new(data)).map_err(|e| e.to_string())?;
    let spec = reader.spec();
    let sample_count = reader.len();
    let first_sample = reader.samples::<i16>().next().map(|sample| sample.ok());
    Ok(WavProbe {
        channels: spec.channels,
        sample_rate: spec.sample_rate,
        bits_per_sample: spec.bits_per_sample,
        sample_count,
        first_sample,
    })
}

/// `hound::WavReader::new` on the bytes, then every item of
/// `into_samples::<i16>`: the result is the one that `wav_samples` names. The
/// first error comes back as its text.
#[verifier::external_body]
pub(crate) fn read_wav_samples(data: &[u8]) -> (r: Result<Vec<i16>, String>)
    ensures
        match r {
            Ok(v) => wav_samples(data@) == Ok::<Seq<i16>, Seq<char>>(v@),
            Err(m) => wav_samples(data@) == Err::<Seq<i16>, Seq<char>>(m@),
        },
{
    let reader = hound::WavReader::new(std::io::Cursor::new(data)).map_err(|e| e.to_string())?;
    reader.into_samples::<i16>().collect::<Result<Vec<i16>, hound::Error>>().map_err(
        |e| e.to_string(),
    )
}

/// Why an image is not accepted.
#[derive(Debug, Clone)]
pub enum WavError {
    /// The bytes are no WAV image; the text says why.
    Invalid(String),
    /// A WAV image, but not 16 kHz mono 16-bit.
    Unsupported { channels: u16, sample_rate: u32, bits_per_sample: u16 },
    /// The right format, but no sample to read.
    NoSamples,
}

/// `"<channels>ch <rate>Hz <bits>-bit"`.
pub open spec fn format_text(channels: u16, sample_rate: u32, bits_per_sample: u16) -> Seq<char> {
    decimal_text(channels as nat) + "ch "@ + decimal_text(sample_rate as nat) + "Hz "@
        + decimal_text(bits_per_sample as nat) + "-bit"@
}

pub fn format_description(channels: u16, sample_rate: u32, bits_per_sample: u16) -> (s: String)
    ensures
        s@ == format_text(channels, sample_rate, bits_per_sample),
{
    let mut out = format_u64(channels as u64);
    out.append("ch ");
    out.append(format_u64(sample_rate as u64).as_str());
    out.append("Hz ");
    out.append(format_u64(bits_per_sample as u64).as_str());
    out.append("-bit");
    out
}

impl WavError {
    pub open spec fn text(self) -> Seq<char> {
        match self {
            WavError::Invalid(m) => "invalid wav: "@ + m@,
            WavError::Unsupported { channels, sample_rate, bits_per_sample } =>
                "unsupported wav format: "@ + format_text(channels, sample_rate, bits_per_sample),
            WavError::NoSamples => "wav contains no samples"@,
        }
    }

    /// The one-line text of this error.
    pub fn message(&self) -> (s: String)
        ensures
            s@ == self.text(),
    {
        match self {
            WavError::Invalid(m) => {
                let mut out = String::from_str("invalid wav: ");
                out.append(m.as_str());
                out
            },
            WavError::Unsupported { channels, sample_rate, bits_per_sample } => {
                let mut out = String::from_str("unsupported wav format: ");
                out.append(format_description(*channels, *sample_rate, *bits_per_sample).as_str());
                out
            },
            WavError::NoSamples => String::from_str("wav contains no samples"),
        }
    }
}

impl WavProbe {
    /// 16 kHz, one channel, 16 bits per sample.
    pub open spec fn has_service_format(self) -> bool {
        self.channels == 1 && self.sample_rate == 16000 && self.bits_per_sample == 16
    }

    /// A first sample is there and reads.
    pub open spec fn has_first_sample(self) -> bool {
        self.first_sample matches Some(Some(_))
    }

    /// The format that the service asks for, and a first sample that reads.
    pub open spec fn is_acceptable(self) -> bool {
        self.has_service_format() && self.has_first_sample()
    }

    /// Playing time in milliseconds, rounded down; none at a rate of zero.
    pub open spec fn duration_ms(self) -> Option<u64> {
        if self.sample_rate == 0 {
            None
        } else {
            Some((self.sample_count as nat * 1000 / self.sample_rate as nat) as u64)
        }
    }

    pub fn playing_time_ms(&self) -> (d: Option<u64>)
        ensures
            d == self.duration_ms(),
    {
        if self.sample_rate == 0 {
            None
        } else {
            Some(self.sample_count as u64 * 1000 / self.sample_rate as u64)
        }
    }
}

/// The verdict on what `hound` found.
pub open spec fn verdict_holds(found: Result<WavProbe, Seq<char>>, r: Result<(), WavError>) -> bool {
    match found {
        Err(m) => r matches Err(WavError::Invalid(t)) && t@ == m,
        Ok(p) => if !p.has_service_format() {
            r == Err::<(), WavError>(
                WavError::Unsupported {
                    channels: p.channels,
                    sample_rate: p.sample_rate,
                    bits_per_sample: p.bits_per_sample,
                },
            )
        } else if !p.has_first_sample() {
            r == Err::<(), WavError>(WavError::NoSamples)
        } else {
            r is Ok
        },
    }
}

/// Judges what was found in an image: it must be readable, in the service's
/// format, and hold a sample.
pub fn check_probe(found: Result<WavProbe, String>) -> (r: Result<(), WavError>)
    ensures
        verdict_holds(
            match found {
                Ok(p) => Ok(p),
                Err(m) => Err(m@),
            },
            r,
        ),
{
    match found {
        Err(m) => Err(WavError::Invalid(m)),
        Ok(p) => {
            if p.channels != CHANNELS || p.sample_rate != SAMPLE_RATE || p.bits_per_sample
                != BITS_PER_SAMPLE {
                Err(
                    WavError::Unsupported {
                        channels: p.channels,
                        sample_rate: p.sample_rate,
                        bits_per_sample: p.bits_per_sample,
                    },
                )
            } else {
                match p.first_sample {
                    Some(Some(_)) => Ok(()),
                    _ => Err(WavError::NoSamples),
                }
            }
        },
    }
}

/// Accepts an image only if it is a 16 kHz mono 16-bit PCM WAV with at least
/// one sample.
pub fn validate_wav(data: &[u8]) -> (r: Result<(), WavError>)
    ensures
        verdict_holds(wav_probe(data@), r),
{
    check_probe(probe_wav(data))
}

/// How long an image plays, in milliseconds: none if it does not read as a WAV
/// image or names a rate of zero.
pub fn derive_duration_ms(data: &[u8]) -> (d: Option<u64>)
    ensures
        d == match wav_probe(data@) {
            Ok(p) => p.duration_ms(),
            Err(_) => None,
        },
{
    match probe_wav(data) {
        Ok(p) => p.playing_time_ms(),
        Err(_) => None,
    }
}

/// The two bytes of a sample, least significant first, negative values in
/// two's complement.
pub open spec fn sample_bytes(s: i16) -> Seq<u8> {
    let u: int = if s >= 0 {
        s as int
    } else {
        s + 65536
    };
    seq![(u % 256) as u8, (u / 256) as u8]
}

/// The data chunk's content: two bytes for each sample.
pub open spec fn pcm_bytes(samples: Seq<i16>) -> Seq<u8> {
    Seq::new(2 * samples.len(), |i: int| sample_bytes(samples[i / 2])[i % 2])
}

pub open spec fn u16_le(n: nat) -> Seq<u8> {
    seq![(n % 256) as u8, (n / 256 % 256) as u8]
}

/// The 44 bytes before the samples: the RIFF tag and size, the `fmt ` chunk of
/// 16 kHz mono 16-bit integer PCM, and the head of the data chunk.
pub open spec fn wav_header(data_len: nat) -> Seq<u8> {
    seq![0x52u8, 0x49, 0x46, 0x46] + u32_le(36 + data_len) + seq![0x57u8, 0x41, 0x56, 0x45]
        + seq![0x66u8, 0x6d, 0x74, 0x20] + u32_le(16) + u16_le(1) + u16_le(1) + u32_le(16000)
        + u32_le(32000) + u16_le(2) + u16_le(16) + seq![0x64u8, 0x61, 0x74, 0x61] + u32_le(
        data_len,
    )
}

/// The WAV image of 16 kHz mono PCM.
pub open spec fn wav_image(samples: Seq<i16>) -> Seq<u8> {
    wav_header(2 * samples.len()) + pcm_bytes(samples)
}

pub proof fn lemma_wav_image_len(samples: Seq<i16>)
    ensures
        wav_image(samples).len() == 44 + 2 * samples.len(),
{
}

fn push_u16_le(out: &mut Vec<u8>, n: u16)
    ensures
        final(out)@ == old(out)@ + u16_le(n as nat),
{
    let ghost before = out@;
    out.push((n % 256) as u8);
    out.push((n / 256 % 256) as u8);
    assert(out@ =~= before + u16_le(n as nat));
}

fn push_u32_le(out: &mut Vec<u8>, n: u32)
    ensures
        final(out)@ == old(out)@ + u32_le(n as nat),
{
    let ghost before = out@;
    out.push((n % 256) as u8);
    out.push((n / 256 % 256) as u8);
    out.push((n / 65536 % 256) as u8);
    out.push((n / 16777216 % 256) as u8);
    assert(out@ =~= before + u32_le(n as nat));
}

fn push_tag(out: &mut Vec<u8>, a: u8, b: u8, c: u8, d: u8)
    ensures
        final(out)@ == old(out)@ + seq![a, b, c, d],
{
    let ghost before = out@;
    out.push(a);
    out.push(b);
    out.push(c);
    out.push(d);
    assert(out@ =~= before + seq![a, b, c, d]);
}

/// Writes 16 kHz mono PCM as a WAV image.
pub fn write_wav(samples: &[i16]) -> (image: Vec<u8>)
    requires
        samples@.len() <= MAX_WAV_SAMPLES,
    ensures
        image@ == wav_image(samples@),
{
    let n: usize = samples.len();
    let data_len: u32 = (2 * n) as u32;
    let mut out: Vec<u8> = Vec::new();
    push_tag(&mut out, 0x52, 0x49, 0x46, 0x46);
    push_u32_le(&mut out, 36 + data_len);
    push_tag(&mut out, 0x57, 0x41, 0x56, 0x45);
    push_tag(&mut out, 0x66, 0x6d, 0x74, 0x20);
    push_u32_le(&mut out, 16);
    push_u16_le(&mut out, 1);
    push_u16_le(&mut out, 1);
    push_u32_le(&mut out, 16000);
    push_u32_le(&mut out, 32000);
    push_u16_le(&mut out, 2);
    push_u16_le(&mut out, 16);
    push_tag(&mut out, 0x64, 0x61, 0x74, 0x61);
    push_u32_le(&mut out, data_len);
    assert(out@ =~= wav_header(2 * n as nat));
    let ghost header = out@;
    let mut i: usize = 0;
    while i < n
        invariant
            i <= n,
            n == samples@.len(),
            out@ == header + pcm_bytes(samples@.subrange(0, i as int)),
        decreases n - i,
    {
        let s: i16 = samples[i];
        let u: u32 = if s >= 0 {
            s as u32
        } else {
            (s as i32 + 65536) as u32
        };
        let ghost before = out@;
        out.push((u % 256) as u8);
        out.push((u / 256) as u8);
        proof {
            let done = samples@.subrange(0, i as int);
            let more = samples@.subrange(0, i + 1);
            assert(out@ =~= before + sample_bytes(s));
            assert forall|j: int| 0 <= j < 2 * (i + 1) implies (pcm_bytes(done) + sample_bytes(
                s,
            ))[j] == #[trigger] pcm_bytes(more)[j] by {
                if j < 2 * i {
                    assert(done[j / 2] == more[j / 2]);
                } else {
                    assert(more[j / 2] == s);
                }
            }
            assert(pcm_bytes(done) + sample_bytes(s) =~= pcm_bytes(more));
            assert(out@ =~= header + pcm_bytes(more));
        }
        i = i + 1;
    }
    assert(samples@.subrange(0, n as int) =~= samples@);
    out
}

/// One second of silence as a WAV image: what a server transcribes once at
/// start-up to have its model loaded.
pub fn warmup_wav() -> (image: Vec<u8>)
    ensures
        image@ == wav_image(Seq::new(16000, |i: int| 0i16)),
{
    let mut pcm: Vec<i16> = Vec::new();
    let mut i: usize = 0;
    while i < 16000
        invariant
            i <= 16000,
            pcm@ == Seq::new(i as nat, |k: int| 0i16),
        decreases 16000 - i,
    {
        pcm.push(0i16);
        assert(pcm@ =~= Seq::new((i + 1) as nat, |k: int| 0i16));
        i = i + 1;
    }
    write_wav(pcm.as_slice())
}

} // verus!
