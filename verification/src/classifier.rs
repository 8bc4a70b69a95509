//! Rule-based classifiers: genre, mood, and the energy analyzer.
//!
//! Each classifier is a pure function of the feature record; a missing
//! optional feature only suppresses the rules that depend on it.

use vstd::prelude::*;
use vstd::string::StringExecFns;
use crate::config::AIConfig;
use crate::features::AudioFeatures;
use crate::text::{contains_char, contains_seq, str_contains_char, str_contains_seq};
use crate::{TagWithConfidence, above_threshold, lemma_above_threshold_push, tags_view, tags_wf};

verus! {

// ---------------------------------------------------------------------------
// Genre classification
// ---------------------------------------------------------------------------

/// Whether the techno rule fires: BPM 120-135 and a bright spectrum.
pub open spec fn techno_rule(f: AudioFeatures, bpm: u32) -> bool {
    12000 <= bpm && bpm <= 13500 && f.spectral_centroid > 120000
}

/// Whether the house rule fires: BPM 118-128 and a low zero-crossing rate.
pub open spec fn house_rule(f: AudioFeatures, bpm: u32) -> bool {
    11800 <= bpm && bpm <= 12800 && f.zero_crossing_rate < 4000
}

/// Whether the progressive rule fires: BPM 128-140 and strong onsets.
pub open spec fn progressive_rule(f: AudioFeatures, bpm: u32) -> bool {
    12800 <= bpm && bpm <= 14000 && f.onset_strength > 6000
}

/// The genre candidates before threshold filtering. Every rule is gated on a
/// present BPM; with no BPM the list is empty.
pub open spec fn spec_genre_candidates(f: AudioFeatures) -> Seq<(Seq<char>, u32)> {
    match f.bpm {
        Option::None => Seq::<(Seq<char>, u32)>::empty(),
        Option::Some(bpm) => {
            let s = Seq::<(Seq<char>, u32)>::empty();
            let s = if techno_rule(f, bpm) {
                s.push(("techno"@, 8500u32))
            } else {
                s
            };
            let s = if techno_rule(f, bpm) && f.rms_energy > 7500 {
                s.push(("peak-time-techno"@, 8000u32))
            } else if techno_rule(f, bpm) && f.rms_energy < 5000 {
                s.push(("minimal-techno"@, 7500u32))
            } else {
                s
            };
            let s = if house_rule(f, bpm) {
                s.push(("house"@, 8200u32))
            } else {
                s
            };
            let s = if house_rule(f, bpm) && f.spectral_centroid < 100000 {
                s.push(("deep-house"@, 7800u32))
            } else {
                s
            };
            let s = if progressive_rule(f, bpm) {
                s.push(("progressive"@, 8000u32))
            } else {
                s
            };
            s
        },
    }
}

/// The genre tags the classifier returns: the candidates at or above the
/// threshold, in rule order.
pub open spec fn spec_classify_genres(f: AudioFeatures, threshold: u32) -> Seq<(Seq<char>, u32)> {
    above_threshold(spec_genre_candidates(f), threshold)
}

/// Genre classifier: BPM-range and spectral-feature rules.
pub struct GenreClassifier {
    /// Minimum confidence for a tag to be kept (ten-thousandths).
    pub confidence_threshold: u32,
}

impl GenreClassifier {
    /// A classifier at the configured threshold.
    pub fn new(config: &AIConfig) -> (r: Self)
        ensures
            r.confidence_threshold == config.confidence_threshold,
    {
        GenreClassifier { confidence_threshold: config.confidence_threshold }
    }

    /// Classify genre from audio features.
    pub fn classify(&self, features: &AudioFeatures) -> (r: Vec<TagWithConfidence>)
        ensures
            tags_view(r@) == spec_classify_genres(*features, self.confidence_threshold),
            tags_wf(r@),
            features.bpm is None ==> r@.len() == 0,
    {
        let mut genres: Vec<TagWithConfidence> = Vec::new();
        if let Some(bpm) = features.bpm {
            if 12000 <= bpm && bpm <= 13500 && features.spectral_centroid > 120000 {
                genres.push(TagWithConfidence::new(String::from_str("techno"), 8500));
                if features.rms_energy > 7500 {
                    genres.push(
                        TagWithConfidence::new(String::from_str("peak-time-techno"), 8000),
                    );
                } else if features.rms_energy < 5000 {
                    genres.push(TagWithConfidence::new(String::from_str("minimal-techno"), 7500));
                }
            }
            if 11800 <= bpm && bpm <= 12800 && features.zero_crossing_rate < 4000 {
                genres.push(TagWithConfidence::new(String::from_str("house"), 8200));
                if features.spectral_centroid < 100000 {
                    genres.push(TagWithConfidence::new(String::from_str("deep-house"), 7800));
                }
            }
            if 12800 <= bpm && bpm <= 14000 && features.onset_strength > 6000 {
                genres.push(TagWithConfidence::new(String::from_str("progressive"), 8000));
            }
        }
        proof {
            assert(tags_view(genres@) =~= spec_genre_candidates(*features));
        }
        let out = filter_by_threshold(genres, self.confidence_threshold);
        proof {
            if features.bpm is None {
                reveal(Seq::filter);
                assert(spec_classify_genres(*features, self.confidence_threshold).len() == 0);
            }
        }
        out
    }
}

// ---------------------------------------------------------------------------
// Mood detection
// ---------------------------------------------------------------------------

/// Whether the key string reads as a minor key.
pub open spec fn minor_key(k: Seq<char>) -> bool {
    contains_char(k, 'm') || contains_seq(k, "min"@)
}

/// The mood candidates before threshold filtering: a key-mode pair, additive
/// energy rules, and a tempo-stability rule.
pub open spec fn spec_mood_candidates(f: AudioFeatures) -> Seq<(Seq<char>, u32)> {
    let s = Seq::<(Seq<char>, u32)>::empty();
    let s = match f.key {
        Option::None => s,
        Option::Some(k) => if minor_key(k@) {
            s.push(("dark"@, 7500u32)).push(("melancholic"@, 7000u32))
        } else {
            s.push(("uplifting"@, 7200u32)).push(("euphoric"@, 6800u32))
        },
    };
    let s = if f.rms_energy > 7000 {
        s.push(("energetic"@, 8500u32)).push(("driving"@, 8000u32))
    } else if f.rms_energy < 4000 {
        s.push(("chill"@, 7800u32)).push(("atmospheric"@, 7500u32))
    } else {
        s
    };
    let s = if f.tempo_stability > 9000 {
        s.push(("hypnotic"@, 8000u32))
    } else {
        s
    };
    s
}

/// The mood tags the detector returns: the candidates at or above the
/// threshold, in rule order.
pub open spec fn spec_detect_moods(f: AudioFeatures, threshold: u32) -> Seq<(Seq<char>, u32)> {
    above_threshold(spec_mood_candidates(f), threshold)
}

/// Mood detector: key-mode heuristic plus energy and stability rules.
pub struct MoodDetector {
    /// Minimum confidence for a tag to be kept (ten-thousandths).
    pub confidence_threshold: u32,
}

impl MoodDetector {
    /// A detector at the configured threshold.
    pub fn new(config: &AIConfig) -> (r: Self)
        ensures
            r.confidence_threshold == config.confidence_threshold,
    {
        MoodDetector { confidence_threshold: config.confidence_threshold }
    }

    /// Detect moods from audio features.
    pub fn detect(&self, features: &AudioFeatures) -> (r: Vec<TagWithConfidence>)
        ensures
            tags_view(r@) == spec_detect_moods(*features, self.confidence_threshold),
            tags_wf(r@),
    {
        let mut moods: Vec<TagWithConfidence> = Vec::new();
        if let Some(key) = &features.key {
            let minor = str_contains_char(key.as_str(), 'm') || str_contains_seq(
                key.as_str(),
                "min",
            );
            proof {
                reveal_strlit("min");
            }
            if minor {
                moods.push(TagWithConfidence::new(String::from_str("dark"), 7500));
                moods.push(TagWithConfidence::new(String::from_str("melancholic"), 7000));
            } else {
                moods.push(TagWithConfidence::new(String::from_str("uplifting"), 7200));
                moods.push(TagWithConfidence::new(String::from_str("euphoric"), 6800));
            }
        }
        if features.rms_energy > 7000 {
            moods.push(TagWithConfidence::new(String::from_str("energetic"), 8500));
            moods.push(TagWithConfidence::new(String::from_str("driving"), 8000));
        } else if features.rms_energy < 4000 {
            moods.push(TagWithConfidence::new(String::from_str("chill"), 7800));
            moods.push(TagWithConfidence::new(String::from_str("atmospheric"), 7500));
        }
        if features.tempo_stability > 9000 {
            moods.push(TagWithConfidence::new(String::from_str("hypnotic"), 8000));
        }
        proof {
            assert(tags_view(moods@) =~= spec_mood_candidates(*features));
        }
        filter_by_threshold(moods, self.confidence_threshold)
    }
}

// ---------------------------------------------------------------------------
// Threshold filtering
// ---------------------------------------------------------------------------

/// Keep the tags whose confidence reaches the threshold, in order.
fn filter_by_threshold(tags: Vec<TagWithConfidence>, threshold: u32) -> (r: Vec<TagWithConfidence>)
    ensures
        tags_view(r@) == above_threshold(tags_view(tags@), threshold),
        tags_wf(tags@) ==> tags_wf(r@),
{
    let mut out: Vec<TagWithConfidence> = Vec::new();
    let mut i: usize = 0;
    proof {
        assert(tags_view(tags@).subrange(0, 0) =~= Seq::<(Seq<char>, u32)>::empty());
        reveal(Seq::filter);
    }
    while i < tags.len()
        invariant
            i <= tags@.len(),
            tags_view(tags@).len() == tags@.len(),
            tags_view(out@) == above_threshold(tags_view(tags@).subrange(0, i as int), threshold),
            tags_wf(tags@) ==> tags_wf(out@),
        decreases tags@.len() - i,
    {
        let ghost pre = tags_view(tags@).subrange(0, i as int);
        let ghost x = tags_view(tags@)[i as int];
        let ghost out_before = out@;
        proof {
            assert(x == (tags@[i as int].tag@, tags@[i as int].confidence));
        }
        let t = &tags[i];
        if t.confidence >= threshold {
            let copied = TagWithConfidence { tag: t.tag.clone(), confidence: t.confidence };
            assert(copied == tags@[i as int]);
            out.push(copied);
            proof {
                assert(out@ =~= out_before.push(copied));
                assert(tags_view(out@) =~= tags_view(out_before).push(x));
            }
        }
        proof {
            lemma_above_threshold_push(pre, x, threshold);
            assert(tags_view(tags@).subrange(0, i + 1) =~= pre.push(x));
        }
        i = i + 1;
    }
    proof {
        assert(tags_view(tags@).subrange(0, tags@.len() as int) =~= tags_view(tags@));
    }
    out
}

// ---------------------------------------------------------------------------
// Energy analysis
// ---------------------------------------------------------------------------

/// Energy level: the RMS energy read on the 0-100 scale, clamped.
pub open spec fn spec_energy_level(f: AudioFeatures) -> u32 {
    if f.rms_energy > 10000 {
        10000u32
    } else {
        f.rms_energy
    }
}

/// Danceability: the mean of a BPM-range bonus and the onset strength,
/// clamped to the 0-100 scale; 50.00 exactly when no BPM is known.
pub open spec fn spec_danceability(f: AudioFeatures) -> u32 {
    match f.bpm {
        Option::None => 5000u32,
        Option::Some(bpm) => {
            let bonus: u32 = if 11800 <= bpm && bpm <= 13500 {
                9000u32
            } else {
                5000u32
            };
            let avg = (bonus + f.onset_strength) as int / 2;
            if avg > 10000 {
                10000u32
            } else {
                avg as u32
            }
        },
    }
}

/// Aggression: the mean of spectral flux and zero-crossing rate, clamped to
/// the 0-100 scale.
pub open spec fn spec_aggression(f: AudioFeatures) -> u32 {
    let avg = (f.spectral_flux + f.zero_crossing_rate) as int / 2;
    if avg > 10000 {
        10000u32
    } else {
        avg as u32
    }
}

/// The three scalar outputs of the energy analyzer, in hundredths of a point
/// on the 0-100 scale.
#[derive(Debug, Clone)]
pub struct EnergyAnalysis {
    pub energy_level: u32,
    pub danceability: u32,
    pub aggression: u32,
}

impl EnergyAnalysis {
    /// All three scores lie on the 0-100 scale.
    pub open spec fn wf(self) -> bool {
        self.energy_level <= 10000 && self.danceability <= 10000 && self.aggression <= 10000
    }
}

/// Energy analyzer: three scalar scores from the feature record.
pub struct EnergyAnalyzer {}

impl EnergyAnalyzer {
    /// An analyzer; it carries no configuration.
    pub fn new(_config: &AIConfig) -> (r: Self) {
        EnergyAnalyzer {  }
    }

    /// Compute energy, danceability and aggression. Never fails; a missing
    /// BPM falls back to the defined neutral danceability.
    pub fn analyze(&self, features: &AudioFeatures) -> (r: EnergyAnalysis)
        ensures
            r.energy_level == spec_energy_level(*features),
            r.danceability == spec_danceability(*features),
            r.aggression == spec_aggression(*features),
            r.wf(),
            features.rms_energy == 10000 ==> r.energy_level == 10000,
            features.rms_energy == 0 ==> r.energy_level == 0,
            features.bpm is None ==> r.danceability == 5000,
    {
        let energy_level = if features.rms_energy > 10000 {
            10000
        } else {
            features.rms_energy
        };
        let danceability = if let Some(bpm) = features.bpm {
            let bonus: u64 = if 11800 <= bpm && bpm <= 13500 {
                9000
            } else {
                5000
            };
            let avg: u64 = (bonus + features.onset_strength as u64) / 2;
            if avg > 10000 {
                10000u32
            } else {
                avg as u32
            }
        } else {
            5000
        };
        let flux_zcr: u64 = (features.spectral_flux as u64 + features.zero_crossing_rate as u64)
            / 2;
        let aggression = if flux_zcr > 10000 {
            10000u32
        } else {
            flux_zcr as u32
        };
        EnergyAnalysis { energy_level, danceability, aggression }
    }
}

} // verus!
