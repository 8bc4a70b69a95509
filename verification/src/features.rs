//! The audio feature record consumed by the classifiers, and the extractor
//! shell around it.
//!
//! An external decoder computes the raw features; this module fixes their
//! schema. Unit-interval features carry ten-thousandths of 1.0, BPM and
//! frequencies carry hundredths, and duration carries hundredths of a second.

use vstd::prelude::*;

verus! {

/// Number of MFCC coefficients in a feature record.
pub const MFCC_LEN: usize = 13;

/// Number of chroma pitch classes in a feature record.
pub const CHROMA_LEN: usize = 12;

/// Complete audio feature set extracted from a track.
#[derive(Debug, Clone)]
pub struct AudioFeatures {
    /// Beats per minute (hundredths), positive when present.
    pub bpm: Option<u32>,
    /// Musical key, free-form notation such as "Am" or "F#m".
    pub key: Option<String>,
    /// Duration in hundredths of a second.
    pub duration: u32,
    /// Spectral centroid in hundredths of a Hz (brightness).
    pub spectral_centroid: u32,
    /// Spectral rolloff in hundredths of a Hz.
    pub spectral_rolloff: u32,
    /// Spectral flux (ten-thousandths; a measure of change).
    pub spectral_flux: u32,
    /// Zero crossing rate (ten-thousandths of 1.0; texture).
    pub zero_crossing_rate: u32,
    /// RMS energy (ten-thousandths of 1.0; loudness).
    pub rms_energy: u32,
    /// MFCC coefficients (ten-thousandths), always `MFCC_LEN` entries.
    pub mfccs: Vec<i32>,
    /// Chroma pitch-class energies (ten-thousandths), always `CHROMA_LEN`.
    pub chroma: Vec<i32>,
    /// Onset strength (ten-thousandths of 1.0; percussiveness).
    pub onset_strength: u32,
    /// Tempo stability (ten-thousandths of 1.0).
    pub tempo_stability: u32,
}

impl AudioFeatures {
    /// The schema invariant: fixed vector lengths, and a positive BPM when
    /// one is present.
    pub open spec fn wf(self) -> bool {
        &&& self.mfccs@.len() == MFCC_LEN
        &&& self.chroma@.len() == CHROMA_LEN
        &&& (self.bpm matches Some(b) ==> b > 0)
    }
}

impl Default for AudioFeatures {
    /// A zero-filled record with the fixed vector lengths.
    fn default() -> (r: Self)
        ensures
            r.wf(),
            r.bpm is None,
            r.key is None,
            r.duration == 0,
            r.spectral_centroid == 0,
            r.spectral_rolloff == 0,
            r.spectral_flux == 0,
            r.zero_crossing_rate == 0,
            r.rms_energy == 0,
            r.mfccs@ == Seq::new(MFCC_LEN as nat, |i: int| 0i32),
            r.chroma@ == Seq::new(CHROMA_LEN as nat, |i: int| 0i32),
            r.onset_strength == 0,
            r.tempo_stability == 0,
    {
        let mut mfccs: Vec<i32> = Vec::new();
        let mut i: usize = 0;
        while i < MFCC_LEN
            invariant
                i <= MFCC_LEN,
                mfccs@ =~= Seq::new(i as nat, |k: int| 0i32),
            decreases MFCC_LEN - i,
        {
            mfccs.push(0);
            i = i + 1;
        }
        let mut chroma: Vec<i32> = Vec::new();
        let mut j: usize = 0;
        while j < CHROMA_LEN
            invariant
                j <= CHROMA_LEN,
                chroma@ =~= Seq::new(j as nat, |k: int| 0i32),
            decreases CHROMA_LEN - j,
        {
            chroma.push(0);
            j = j + 1;
        }
        AudioFeatures {
            bpm: None,
            key: None,
            duration: 0,
            spectral_centroid: 0,
            spectral_rolloff: 0,
            spectral_flux: 0,
            zero_crossing_rate: 0,
            rms_energy: 0,
            mfccs,
            chroma,
            onset_strength: 0,
            tempo_stability: 0,
        }
    }
}

/// Builds feature records around externally extracted metadata.
pub struct FeatureExtractor {
    /// Sample rate assumed for analysis, in Hz.
    pub sample_rate: u32,
}

impl FeatureExtractor {
    /// An extractor at the standard sample rate.
    pub fn new() -> (r: Self)
        ensures
            r.sample_rate == 44100,
    {
        FeatureExtractor { sample_rate: 44100 }
    }

    /// Assemble a feature record from decoded tag metadata, filling the
    /// spectral fields with the fixed placeholder profile used until real
    /// spectral analysis is wired in.
    pub fn features_from_metadata(
        &self,
        duration: u32,
        bpm: Option<u32>,
        key: Option<String>,
    ) -> (r: AudioFeatures)
        requires
            bpm matches Some(b) ==> b > 0,
        ensures
            r.wf(),
            r.bpm == bpm,
            r.key == key,
            r.duration == duration,
            r.spectral_centroid == 150000,
            r.spectral_rolloff == 300000,
            r.spectral_flux == 5000,
            r.zero_crossing_rate == 3000,
            r.rms_energy == 7000,
            r.onset_strength == 6000,
            r.tempo_stability == 8000,
            r.mfccs@ == Seq::new(MFCC_LEN as nat, |i: int| 0i32),
            r.chroma@ == Seq::new(CHROMA_LEN as nat, |i: int| 0i32),
    {
        let mut features = AudioFeatures::default();
        features.duration = duration;
        features.bpm = bpm;
        features.key = key;
        features.spectral_centroid = 150000;
        features.spectral_rolloff = 300000;
        features.spectral_flux = 5000;
        features.zero_crossing_rate = 3000;
        features.rms_energy = 7000;
        features.onset_strength = 6000;
        features.tempo_stability = 8000;
        features
    }
}

impl Default for FeatureExtractor {
    /// Same as `FeatureExtractor::new`.
    fn default() -> (r: Self)
        ensures
            r.sample_rate == 44100,
    {
        FeatureExtractor::new()
    }
}

} // verus!
