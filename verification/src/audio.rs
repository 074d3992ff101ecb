//! Audio alerting: the decision which tone pattern a severity calls for,
//! the tone parameters of each pattern, and the WAV container for rendered
//! samples. Actually sounding the tones is platform I/O and stays with the
//! caller.

use vstd::prelude::*;

use crate::models::AlertSeverity;

verus! {

/// Tone patterns for the audible severities.
#[derive(Debug, Clone, Copy, PartialEq, Eq, Structural)]
pub enum AlertPattern {
    /// Three short beeps at 1000 Hz.
    CriticalBeeps,
    /// One continuous 800 Hz tone, three seconds.
    EmergencyAlarm,
    /// Two medium beeps at 800 Hz.
    WarningBeeps,
}

impl AlertPattern {
    /// The beeps of the pattern, as (frequency in hertz, duration in
    /// milliseconds) pairs in playing order.
    pub fn tones(self) -> (r: Vec<(u32, u64)>)
        ensures
            self is CriticalBeeps ==> r@ =~= seq![(1000u32, 100u64), (1000u32, 100u64), (1000u32, 100u64)],
            self is EmergencyAlarm ==> r@ =~= seq![(800u32, 3000u64)],
            self is WarningBeeps ==> r@ =~= seq![(800u32, 150u64), (800u32, 150u64)],
    {
        let mut r: Vec<(u32, u64)> = Vec::new();
        match self {
            AlertPattern::CriticalBeeps => {
                r.push((1000, 100));
                r.push((1000, 100));
                r.push((1000, 100));
            },
            AlertPattern::EmergencyAlarm => {
                r.push((800, 3000));
            },
            AlertPattern::WarningBeeps => {
                r.push((800, 150));
                r.push((800, 150));
            },
        }
        r
    }
}

/// Audio alerter: decides, from the configured enable flag and an alert's
/// severity, which tone pattern (if any) to sound.
#[derive(Debug, Clone, Copy, PartialEq, Eq, Structural)]
pub struct AudioAlerter {
    pub enabled: bool,
}

impl AudioAlerter {
    /// Create a new audio alerter.
    pub fn new(enabled: bool) -> (r: Self)
        ensures
            r.enabled == enabled,
    {
        AudioAlerter { enabled }
    }

    /// The pattern an alert of this severity calls for: nothing when audio
    /// is disabled or the severity is below Warning.
    pub open spec fn spec_pattern_for(&self, severity: AlertSeverity) -> Option<AlertPattern> {
        if !self.enabled {
            None
        } else {
            match severity {
                AlertSeverity::Critical => Some(AlertPattern::CriticalBeeps),
                AlertSeverity::Emergency => Some(AlertPattern::EmergencyAlarm),
                AlertSeverity::Warning => Some(AlertPattern::WarningBeeps),
                AlertSeverity::Notice => None,
                AlertSeverity::Info => None,
            }
        }
    }

    /// Decide the tone pattern for an alert of the given severity. The
    /// caller sounds the returned pattern; lower severities stay silent.
    #[verifier::when_used_as_spec(spec_pattern_for)]
    pub fn play_alert(&self, severity: AlertSeverity) -> (r: Option<AlertPattern>)
        ensures
            r == self.spec_pattern_for(severity),
    {
        if !self.enabled {
            return None;
        }
        match severity {
            AlertSeverity::Critical => Some(AlertPattern::CriticalBeeps),
            AlertSeverity::Emergency => Some(AlertPattern::EmergencyAlarm),
            AlertSeverity::Warning => Some(AlertPattern::WarningBeeps),
            AlertSeverity::Notice => None,
            AlertSeverity::Info => None,
        }
    }
}

/// The two bytes of a 16-bit value, least significant first.
pub open spec fn spec_le16(x: u16) -> Seq<u8> {
    seq![(x & 0xff) as u8, (x >> 8) as u8]
}

/// The four bytes of a 32-bit value, least significant first.
pub open spec fn spec_le32(x: u32) -> Seq<u8> {
    seq![
        (x & 0xff) as u8,
        ((x >> 8) & 0xff) as u8,
        ((x >> 16) & 0xff) as u8,
        ((x >> 24) & 0xff) as u8,
    ]
}

/// The little-endian bytes of a run of 16-bit samples.
pub open spec fn spec_sample_bytes(samples: Seq<i16>) -> Seq<u8>
    decreases samples.len(),
{
    if samples.len() == 0 {
        Seq::empty()
    } else {
        spec_le16(samples[0] as u16) + spec_sample_bytes(samples.drop_first())
    }
}

/// The complete WAV file for 16-bit mono samples at the given rate: RIFF
/// header, `fmt ` subchunk for PCM mono 16-bit, `data` subchunk, samples.
pub open spec fn spec_wav(samples: Seq<i16>, sample_rate: u32) -> Seq<u8> {
    seq![82u8, 73u8, 70u8, 70u8]  // RIFF
     + spec_le32((36 + 2 * samples.len()) as u32) + seq![87u8, 65u8, 86u8, 69u8]  // WAVE
     + seq![102u8, 109u8, 116u8, 32u8]  // fmt-space
     + spec_le32(16) + spec_le16(1) + spec_le16(1) + spec_le32(sample_rate) + spec_le32(
        (sample_rate * 2) as u32,
    ) + spec_le16(2) + spec_le16(16) + seq![100u8, 97u8, 116u8, 97u8]  // data
     + spec_le32((2 * samples.len()) as u32) + spec_sample_bytes(samples)
}

/// Push the two little-endian bytes of a 16-bit value.
fn push_le16(out: &mut Vec<u8>, x: u16)
    ensures
        final(out)@ == old(out)@ + spec_le16(x),
{
    out.push((x & 0xff) as u8);
    out.push((x >> 8) as u8);
    proof {
        assert(out@ =~= old(out)@ + spec_le16(x));
    }
}

/// Push the four little-endian bytes of a 32-bit value.
fn push_le32(out: &mut Vec<u8>, x: u32)
    ensures
        final(out)@ == old(out)@ + spec_le32(x),
{
    out.push((x & 0xff) as u8);
    out.push(((x >> 8) & 0xff) as u8);
    out.push(((x >> 16) & 0xff) as u8);
    out.push(((x >> 24) & 0xff) as u8);
    proof {
        assert(out@ =~= old(out)@ + spec_le32(x));
    }
}

/// Build the WAV container around rendered 16-bit mono samples. The caller
/// computes the samples (tone synthesis is unverified floating-point work);
/// the container layout is exact.
pub fn wav_from_samples(samples: &Vec<i16>, sample_rate: u32) -> (wav: Vec<u8>)
    requires
        36 + 2 * samples@.len() <= u32::MAX,
        2 * sample_rate <= u32::MAX,
    ensures
        wav@ == spec_wav(samples@, sample_rate),
        wav@.len() == 44 + 2 * samples@.len(),
{
    let ghost gs = samples@;
    let mut wav: Vec<u8> = Vec::new();
    wav.push(82);  // R
    wav.push(73);  // I
    wav.push(70);  // F
    wav.push(70);  // F
    push_le32(&mut wav, 36 + 2 * (samples.len() as u32));
    wav.push(87);  // W
    wav.push(65);  // A
    wav.push(86);  // V
    wav.push(69);  // E
    wav.push(102);  // f
    wav.push(109);  // m
    wav.push(116);  // t
    wav.push(32);  // space
    push_le32(&mut wav, 16);
    push_le16(&mut wav, 1);
    push_le16(&mut wav, 1);
    push_le32(&mut wav, sample_rate);
    push_le32(&mut wav, sample_rate * 2);
    push_le16(&mut wav, 2);
    push_le16(&mut wav, 16);
    wav.push(100);  // d
    wav.push(97);  // a
    wav.push(116);  // t
    wav.push(97);  // a
    push_le32(&mut wav, 2 * (samples.len() as u32));
    let ghost header = wav@;
    proof {
        assert(header =~= spec_wav(gs, sample_rate).take(44));
        assert(spec_wav(gs, sample_rate).len() == 44 + spec_sample_bytes(gs).len()) by {
            lemma_sample_bytes_len(gs);
        }
    }
    let mut i: usize = 0;
    #[verifier::loop_isolation(false)]
    while i < samples.len()
        invariant
            0 <= i <= gs.len(),
            samples@ == gs,
            wav@ == header + spec_sample_bytes(gs.take(i as int)),
        decreases gs.len() - i,
    {
        let s = samples[i];
        push_le16(&mut wav, s as u16);
        proof {
            lemma_sample_bytes_snoc(gs.take(i as int + 1));
            assert(gs.take(i as int + 1).drop_last() =~= gs.take(i as int));
            assert(wav@ =~= header + spec_sample_bytes(gs.take(i as int + 1)));
        }
        i += 1;
    }
    proof {
        assert(gs.take(gs.len() as int) =~= gs);
        assert(wav@ =~= spec_wav(gs, sample_rate));
        lemma_sample_bytes_len(gs);
    }
    wav
}

/// The byte run of samples is twice as long as the sample run.
proof fn lemma_sample_bytes_len(samples: Seq<i16>)
    ensures
        spec_sample_bytes(samples).len() == 2 * samples.len(),
    decreases samples.len(),
{
    if samples.len() > 0 {
        lemma_sample_bytes_len(samples.drop_first());
    }
}

/// Sample bytes of a non-empty run end with the bytes of the last sample.
proof fn lemma_sample_bytes_snoc(samples: Seq<i16>)
    requires
        samples.len() > 0,
    ensures
        spec_sample_bytes(samples) == spec_sample_bytes(samples.drop_last()) + spec_le16(
            samples.last() as u16,
        ),
    decreases samples.len(),
{
    if samples.len() == 1 {
        assert(spec_sample_bytes(samples.drop_first()) =~= Seq::<u8>::empty());
        assert(samples.drop_last() =~= Seq::<i16>::empty());
        assert(spec_sample_bytes(samples.drop_last()) =~= Seq::<u8>::empty());
        assert(spec_sample_bytes(samples) =~= spec_sample_bytes(samples.drop_last()) + spec_le16(
            samples.last() as u16,
        ));
    } else {
        lemma_sample_bytes_snoc(samples.drop_first());
        assert(samples.drop_first().drop_last() =~= samples.drop_last().drop_first());
        assert(samples.drop_first().last() == samples.last());
        assert(spec_sample_bytes(samples) =~= spec_sample_bytes(samples.drop_last()) + spec_le16(
            samples.last() as u16,
        ));
    }
}

} // verus!
