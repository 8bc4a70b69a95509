//! Metadata quality control: flag inconsistencies between tagged and
//! detected values, flag missing critical tags, and score completeness.
//!
//! Scores carry ten-thousandths of 1.0.

use vstd::prelude::*;
use vstd::string::StringExecFns;
use crate::features::AudioFeatures;
use crate::text;
use crate::track::Track;

verus! {

/// Whether the tagged whole-BPM and the detected BPM (hundredths) differ by
/// more than five BPM.
pub open spec fn bpm_mismatch(track: Track, features: AudioFeatures) -> bool {
    match (track.bpm, features.bpm) {
        (Option::Some(tb), Option::Some(db)) => {
            let d = tb * 100 - db;
            (if d < 0 {
                -d
            } else {
                d
            }) > 500
        },
        _ => false,
    }
}

/// The issues a validation reports, in order: a BPM mismatch warning, a
/// missing-genre error, a missing-artist error.
pub open spec fn spec_issues(track: Track, features: AudioFeatures) -> Seq<
    (IssueSeverity, Seq<char>, Seq<char>),
> {
    let s = Seq::<(IssueSeverity, Seq<char>, Seq<char>)>::empty();
    let s = if bpm_mismatch(track, features) {
        s.push(
            (
                IssueSeverity::Warning,
                "BPM"@,
                "Tagged BPM ("@ + text::spec_i64_str(track.bpm->0 as int) + ") differs from detected ("@
                    + text::spec_fmt_tenths(features.bpm->0) + ")"@,
            ),
        )
    } else {
        s
    };
    let s = if track.genres@.len() == 0 {
        s.push((IssueSeverity::Error, "Genre"@, "No genre tags found"@))
    } else {
        s
    };
    let s = if track.artists@.len() == 0 {
        s.push((IssueSeverity::Error, "Artist"@, "No artist information"@))
    } else {
        s
    };
    s
}

/// The suggestions a validation reports: an updated BPM when the tagged one
/// mismatches.
pub open spec fn spec_suggestions(track: Track, features: AudioFeatures) -> Seq<Seq<char>> {
    if bpm_mismatch(track, features) {
        seq!["Consider updating BPM to "@ + text::spec_fmt_tenths(features.bpm->0)]
    } else {
        Seq::<Seq<char>>::empty()
    }
}

/// Metadata completeness: the weighted share of filled fields. Artists and
/// genres weigh two, the other tracked fields one, out of nine.
pub open spec fn spec_completeness(track: Track) -> u32 {
    let pts = (if track.artists@.len() > 0 {
        2int
    } else {
        0int
    }) + (if track.genres@.len() > 0 {
        2int
    } else {
        0int
    }) + (if track.bpm is Some {
        1int
    } else {
        0int
    }) + (if track.key is Some {
        1int
    } else {
        0int
    }) + (if track.label is Some {
        1int
    } else {
        0int
    }) + (if track.release_date is Some || track.release_year is Some {
        1int
    } else {
        0int
    }) + (if track.art is Some {
        1int
    } else {
        0int
    });
    ((pts * 10000) / 9) as u32
}

/// Consistency: full marks with no issues, a tenth off per issue.
pub open spec fn spec_consistency(track: Track, features: AudioFeatures) -> u32 {
    let n = spec_issues(track, features).len();
    if n == 0 {
        10000u32
    } else {
        (10000 - n * 1000) as u32
    }
}

/// The view of a reported issue.
pub open spec fn issue_view(i: ValidationIssue) -> (IssueSeverity, Seq<char>, Seq<char>) {
    (i.severity, i.field@, i.message@)
}

/// Validates track metadata against detected features.
pub struct QualityControl {
    /// Validation strictness (ten-thousandths of 1.0; advisory).
    pub strictness: u32,
}

impl QualityControl {
    /// A checker at the given strictness.
    pub fn new(strictness: u32) -> (r: Self)
        ensures
            r.strictness == strictness,
    {
        QualityControl { strictness }
    }

    /// Validate a track's metadata: report issues and suggestions, and
    /// score completeness and overall quality.
    pub fn validate(&self, track: &Track, features: &AudioFeatures) -> (r: ValidationResult)
        ensures
            r.issues@.map_values(|i: ValidationIssue| issue_view(i)) == spec_issues(
                *track,
                *features,
            ),
            r.suggestions.deep_view() == spec_suggestions(*track, *features),
            r.completeness == spec_completeness(*track),
            r.quality_score == (spec_completeness(*track) + spec_consistency(*track, *features))
                as int / 2,
    {
        let mut issues: Vec<ValidationIssue> = Vec::new();
        let mut suggestions: Vec<String> = Vec::new();

        if let (Some(tagged_bpm), Some(detected_bpm)) = (track.bpm, features.bpm) {
            let wide: i128 = (tagged_bpm as i128) * 100 - (detected_bpm as i128);
            let diff: i128 = if wide < 0 {
                -wide
            } else {
                wide
            };
            if diff > 500 {
                let mut message = String::from_str("Tagged BPM (");
                message.append(text::i64_to_string(tagged_bpm).as_str());
                message.append(") differs from detected (");
                message.append(text::fmt_tenths(detected_bpm).as_str());
                message.append(")");
                issues.push(
                    ValidationIssue {
                        severity: IssueSeverity::Warning,
                        field: String::from_str("BPM"),
                        message,
                    },
                );
                let mut advice = String::from_str("Consider updating BPM to ");
                advice.append(text::fmt_tenths(detected_bpm).as_str());
                suggestions.push(advice);
            }
        }
        if track.genres.len() == 0 {
            issues.push(
                ValidationIssue {
                    severity: IssueSeverity::Error,
                    field: String::from_str("Genre"),
                    message: String::from_str("No genre tags found"),
                },
            );
        }
        if track.artists.len() == 0 {
            issues.push(
                ValidationIssue {
                    severity: IssueSeverity::Error,
                    field: String::from_str("Artist"),
                    message: String::from_str("No artist information"),
                },
            );
        }
        proof {
            assert(issues@.map_values(|i: ValidationIssue| issue_view(i)) =~~= spec_issues(
                *track,
                *features,
            ));
            assert(suggestions.deep_view() =~~= spec_suggestions(*track, *features));
        }

        let completeness = self.calculate_completeness(track);
        let consistency = if issues.len() == 0 {
            10000
        } else {
            10000 - (issues.len() as u32) * 1000
        };
        proof {
            assert(issues@.len() == spec_issues(*track, *features).len());
            assert(issues@.len() <= 3);
        }
        let quality_score = (completeness + consistency) / 2;

        ValidationResult { quality_score, completeness, issues, suggestions }
    }

    /// Score how complete the track's metadata is.
    pub fn calculate_completeness(&self, track: &Track) -> (r: u32)
        ensures
            r == spec_completeness(*track),
            r <= 10000,
    {
        let mut pts: u32 = 0;
        if track.artists.len() > 0 {
            pts = pts + 2;
        }
        if track.genres.len() > 0 {
            pts = pts + 2;
        }
        if track.bpm.is_some() {
            pts = pts + 1;
        }
        if track.key.is_some() {
            pts = pts + 1;
        }
        if track.label.is_some() {
            pts = pts + 1;
        }
        if track.release_date.is_some() || track.release_year.is_some() {
            pts = pts + 1;
        }
        if track.art.is_some() {
            pts = pts + 1;
        }
        (pts * 10000) / 9
    }
}

/// The outcome of a validation run.
#[derive(Debug, Clone)]
pub struct ValidationResult {
    /// Overall quality (ten-thousandths of 1.0).
    pub quality_score: u32,
    /// Metadata completeness (ten-thousandths of 1.0).
    pub completeness: u32,
    pub issues: Vec<ValidationIssue>,
    pub suggestions: Vec<String>,
}

/// One reported metadata problem.
#[derive(Debug, Clone)]
pub struct ValidationIssue {
    pub severity: IssueSeverity,
    /// The metadata field concerned.
    pub field: String,
    pub message: String,
}

/// How serious a reported issue is.
#[derive(Debug, Clone, Copy, PartialEq, Eq, Structural)]
pub enum IssueSeverity {
    Error,
    Warning,
    Info,
}

} // verus!
