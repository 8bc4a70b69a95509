//! The tagging front end: platform metadata for the UI, the configuration
//! options it offers, and the conversion of an analysis result into track
//! metadata for the downstream tagging collaborator.

use vstd::prelude::*;
use vstd::string::StringExecFns;
use crate::config::AIConfig;
use crate::text;
use crate::track::{AudioFileInfo, Track, TrackMatch};
use crate::{AIAnalysisResult, TagWithConfidence, tags_view};

verus! {

/// A configurable option value offered in the UI.
#[derive(Debug, Clone)]
pub enum PlatformCustomOptionValue {
    /// A free-form text value; `hidden` masks the input.
    Text { value: String, hidden: Option<bool> },
    /// One value out of a fixed list.
    Choice { values: Vec<String>, value: String },
    /// An on/off switch.
    Toggle { value: bool },
    /// A number within bounds.
    Numeric { min: i32, max: i32, step: i32, value: i32 },
}

/// One configurable option: an identifier, a label, an optional tooltip and
/// its value.
#[derive(Debug, Clone)]
pub struct PlatformCustomOption {
    pub id: String,
    pub label: String,
    pub tooltip: Option<String>,
    pub value: PlatformCustomOptionValue,
}

/// The ordered set of options a platform offers.
#[derive(Debug, Clone)]
pub struct PlatformCustomOptions {
    pub options: Vec<PlatformCustomOption>,
}

impl PlatformCustomOptions {
    /// No options yet.
    pub fn new() -> (r: Self)
        ensures
            r.options@.len() == 0,
    {
        PlatformCustomOptions { options: Vec::new() }
    }

    /// Append an option without a tooltip.
    pub fn add(self, id: &str, label: &str, value: PlatformCustomOptionValue) -> (r: Self)
        ensures
            r.options@.len() == self.options@.len() + 1,
            r.options@.last().id@ == id@,
            r.options@.last().label@ == label@,
            r.options@.last().tooltip is None,
            r.options@.last().value == value,
            forall|i: int| 0 <= i < self.options@.len() ==> r.options@[i] == self.options@[i],
    {
        let mut options = self.options;
        options.push(
            PlatformCustomOption {
                id: String::from_str(id),
                label: String::from_str(label),
                tooltip: None,
                value,
            },
        );
        PlatformCustomOptions { options }
    }

    /// Append an option with a tooltip.
    pub fn add_tooltip(
        self,
        id: &str,
        label: &str,
        tooltip: &str,
        value: PlatformCustomOptionValue,
    ) -> (r: Self)
        ensures
            r.options@.len() == self.options@.len() + 1,
            r.options@.last().id@ == id@,
            r.options@.last().label@ == label@,
            r.options@.last().tooltip matches Some(t) && t@ == tooltip@,
            r.options@.last().value == value,
            forall|i: int| 0 <= i < self.options@.len() ==> r.options@[i] == self.options@[i],
    {
        let mut options = self.options;
        options.push(
            PlatformCustomOption {
                id: String::from_str(id),
                label: String::from_str(label),
                tooltip: Some(String::from_str(tooltip)),
                value,
            },
        );
        PlatformCustomOptions { options }
    }
}

/// The metadata tags a platform can supply.
#[derive(Debug, Clone, Copy, PartialEq, Eq, Structural)]
pub enum SupportedTag {
    Genre,
    Style,
    Mood,
    BPM,
    Key,
    OtherTags,
}

/// What the UI shows about this tagging platform.
#[derive(Debug, Clone)]
pub struct PlatformInfo {
    pub id: String,
    pub name: String,
    pub description: String,
    pub version: String,
    pub icon: Vec<u8>,
    pub max_threads: u32,
    pub custom_options: PlatformCustomOptions,
    pub supported_tags: Vec<SupportedTag>,
    pub requires_auth: bool,
}

/// The names of a tag list, in order.
pub open spec fn tag_names(s: Seq<(Seq<char>, u32)>) -> Seq<Seq<char>> {
    s.map_values(|p: (Seq<char>, u32)| p.0)
}

/// The view of an optional string.
pub open spec fn opt_str_view(o: Option<String>) -> Option<Seq<char>> {
    match o {
        Option::Some(s) => Option::Some(s@),
        Option::None => Option::None,
    }
}

/// The extra named frames written for an analysis: the rounded energy and
/// danceability scores, and the raw suggestions when there are any.
pub open spec fn spec_other_frames(a: AIAnalysisResult) -> Seq<(Seq<char>, Seq<Seq<char>>)> {
    let s = Seq::<(Seq<char>, Seq<Seq<char>>)>::empty();
    let s = if a.energy_level is Some {
        s.push(("AI_ENERGY"@, seq![text::spec_fmt_units(a.energy_level->0)]))
    } else {
        s
    };
    let s = if a.danceability is Some {
        s.push(("AI_DANCEABILITY"@, seq![text::spec_fmt_units(a.danceability->0)]))
    } else {
        s
    };
    let s = if a.llm_suggestions@.len() > 0 {
        s.push(("AI_TAGS"@, a.llm_suggestions@.map_values(|x: String| x@)))
    } else {
        s
    };
    s
}

/// Copy a list of strings.
fn copy_string_vec(v: &Vec<String>) -> (r: Vec<String>)
    ensures
        r.deep_view() == v.deep_view(),
{
    let mut out: Vec<String> = Vec::new();
    let mut i: usize = 0;
    while i < v.len()
        invariant
            i <= v@.len(),
            out@.len() == i,
            forall|k: int| 0 <= k < i ==> (#[trigger] out@[k])@ == v@[k]@,
        decreases v@.len() - i,
    {
        out.push(v[i].clone());
        i = i + 1;
    }
    proof {
        assert(out.deep_view() =~= v.deep_view());
    }
    out
}

/// The names of a tag list, cloned.
fn tag_names_vec(tags: &Vec<TagWithConfidence>) -> (r: Vec<String>)
    ensures
        r.deep_view() == tag_names(tags_view(tags@)),
{
    let mut out: Vec<String> = Vec::new();
    let mut i: usize = 0;
    while i < tags.len()
        invariant
            i <= tags@.len(),
            out@.len() == i,
            forall|k: int| 0 <= k < i ==> (#[trigger] out@[k])@ == tags@[k].tag@,
        decreases tags@.len() - i,
    {
        out.push(tags[i].tag.clone());
        i = i + 1;
    }
    proof {
        assert(out.deep_view() =~= tag_names(tags_view(tags@)));
    }
    out
}

/// The tagging platform built around the analysis pipeline.
pub struct AITagger {
    /// The configuration used for every analysis this tagger runs.
    pub ai_config: AIConfig,
}

impl AITagger {
    /// A tagger over the given configuration.
    pub fn new_with_config(ai_config: AIConfig) -> (r: Self)
        ensures
            r.ai_config == ai_config,
    {
        AITagger { ai_config }
    }

    /// Platform metadata for the UI.
    pub fn get_info() -> (r: PlatformInfo)
        ensures
            r.id@ == "ai"@,
            r.name@ == "AI Tagger (Gemini)"@,
            r.description@
                == "AI-powered tagging through a free cloud API: custom genres and styles from your own taxonomy, mood detection, energy analysis on the 0-100 scale, and smart tag suggestions. Setup: configure an API key for the selected provider."@,
            r.version@ == "0.1.0"@,
            r.icon@.len() == 0,
            r.max_threads == 8,
            r.custom_options.options@.len() == 6,
            r.supported_tags@ == seq![
                SupportedTag::Genre,
                SupportedTag::Style,
                SupportedTag::Mood,
                SupportedTag::BPM,
                SupportedTag::Key,
                SupportedTag::OtherTags,
            ],
            r.requires_auth,
    {
        let mut supported_tags: Vec<SupportedTag> = Vec::new();
        supported_tags.push(SupportedTag::Genre);
        supported_tags.push(SupportedTag::Style);
        supported_tags.push(SupportedTag::Mood);
        supported_tags.push(SupportedTag::BPM);
        supported_tags.push(SupportedTag::Key);
        supported_tags.push(SupportedTag::OtherTags);
        proof {
            assert(supported_tags@ =~= seq![
                SupportedTag::Genre,
                SupportedTag::Style,
                SupportedTag::Mood,
                SupportedTag::BPM,
                SupportedTag::Key,
                SupportedTag::OtherTags,
            ]);
        }
        PlatformInfo {
            id: String::from_str("ai"),
            name: String::from_str("AI Tagger (Gemini)"),
            description: String::from_str(
                "AI-powered tagging through a free cloud API: custom genres and styles from your own taxonomy, mood detection, energy analysis on the 0-100 scale, and smart tag suggestions. Setup: configure an API key for the selected provider.",
            ),
            version: String::from_str("0.1.0"),
            icon: Vec::new(),
            max_threads: 8,
            custom_options: Self::custom_options(),
            supported_tags,
            requires_auth: true,
        }
    }

    /// The configuration options offered in the UI: the API key (masked),
    /// the provider choice, the three feature toggles, and the confidence
    /// threshold in whole percent.
    pub fn custom_options() -> (r: PlatformCustomOptions)
        ensures
            r.options@.len() == 6,
            r.options@[0].id@ == "apiKey"@,
            r.options@[0].label@ == "Gemini API Key"@,
            r.options@[0].value matches PlatformCustomOptionValue::Text { value: v, hidden: h }
                && v@.len() == 0 && h == Some(true),
            r.options@[1].id@ == "apiProvider"@,
            r.options@[1].label@ == "API Provider"@,
            r.options@[1].value matches PlatformCustomOptionValue::Choice { values: vs, value: v }
                && vs.deep_view() == seq![
                "Gemini (Google)"@,
                "OpenRouter"@,
                "Groq"@,
                "Together AI"@,
            ] && v@ == "Gemini (Google)"@,
            r.options@[2].id@ == "enableGenreClassification"@,
            r.options@[2].value matches PlatformCustomOptionValue::Toggle { value: v } && v,
            r.options@[3].id@ == "enableMoodDetection"@,
            r.options@[3].value matches PlatformCustomOptionValue::Toggle { value: v } && v,
            r.options@[4].id@ == "enableEnergyAnalysis"@,
            r.options@[4].value matches PlatformCustomOptionValue::Toggle { value: v } && v,
            r.options@[5].id@ == "confidenceThreshold"@,
            r.options@[5].value matches PlatformCustomOptionValue::Numeric {
                min: 50,
                max: 100,
                step: 5,
                value: 70,
            },
    {
        let mut provider_values: Vec<String> = Vec::new();
        provider_values.push(String::from_str("Gemini (Google)"));
        provider_values.push(String::from_str("OpenRouter"));
        provider_values.push(String::from_str("Groq"));
        provider_values.push(String::from_str("Together AI"));
        proof {
            assert(provider_values.deep_view() =~= seq![
                "Gemini (Google)"@,
                "OpenRouter"@,
                "Groq"@,
                "Together AI"@,
            ]);
        }
        PlatformCustomOptions::new().add(
            "apiKey",
            "Gemini API Key",
            PlatformCustomOptionValue::Text { value: String::new(), hidden: Some(true) },
        ).add_tooltip(
            "apiProvider",
            "API Provider",
            "Which AI provider to use (Gemini is recommended)",
            PlatformCustomOptionValue::Choice {
                values: provider_values,
                value: String::from_str("Gemini (Google)"),
            },
        ).add(
            "enableGenreClassification",
            "Genre Classification",
            PlatformCustomOptionValue::Toggle { value: true },
        ).add(
            "enableMoodDetection",
            "Mood Detection",
            PlatformCustomOptionValue::Toggle { value: true },
        ).add(
            "enableEnergyAnalysis",
            "Energy Analysis",
            PlatformCustomOptionValue::Toggle { value: true },
        ).add_tooltip(
            "confidenceThreshold",
            "Confidence Threshold (%)",
            "Minimum confidence to accept AI suggestions",
            PlatformCustomOptionValue::Numeric { min: 50, max: 100, step: 5, value: 70 },
        )
    }

    /// Turn a finished analysis into one track match for the downstream
    /// tagging collaborator. The caller runs the analysis; this conversion
    /// never fails.
    pub fn match_track(&self, info: &AudioFileInfo, analysis: &AIAnalysisResult) -> (r: Vec<
        TrackMatch,
    >)
        ensures
            r@.len() == 1,
            r@[0].confidence == analysis.confidence,
            r@[0].track.platform@ == "ai"@,
            r@[0].track.title@ == match info.title {
                Option::Some(t) => t@,
                Option::None => Seq::<char>::empty(),
            },
            r@[0].track.artists.deep_view() == if info.artists@.len() > 0 {
                info.artists.deep_view()
            } else {
                seq!["Unknown"@]
            },
            r@[0].track.genres.deep_view() == tag_names(tags_view(analysis.genres@)),
            r@[0].track.styles.deep_view() == tag_names(tags_view(analysis.custom_tags@)),
            r@[0].track.bpm == match analysis.audio_features {
                Option::Some(af) => match af.bpm {
                    Option::Some(b) => Option::Some((b / 100) as i64),
                    Option::None => Option::<i64>::None,
                },
                Option::None => Option::<i64>::None,
            },
            opt_str_view(r@[0].track.key) == match analysis.audio_features {
                Option::Some(af) => opt_str_view(af.key),
                Option::None => Option::<Seq<char>>::None,
            },
            opt_str_view(r@[0].track.mood) == if analysis.moods@.len() > 0 {
                Option::Some(analysis.moods@[0].tag@)
            } else {
                Option::<Seq<char>>::None
            },
            r@[0].track.duration == match info.duration {
                Option::Some(d) => d,
                Option::None => 0u64,
            },
            r@[0].track.url@.len() == 0,
            r@[0].track.label is None,
            r@[0].track.release_date is None,
            r@[0].track.release_year is None,
            r@[0].track.art is None,
            r@[0].track.other@.map_values(|p: (String, Vec<String>)| (p.0@, p.1.deep_view()))
                == spec_other_frames(*analysis),
    {
        let title = match &info.title {
            Some(t) => t.clone(),
            None => String::new(),
        };
        let artists = if info.artists.len() > 0 {
            copy_string_vec(&info.artists)
        } else {
            let mut a: Vec<String> = Vec::new();
            a.push(String::from_str("Unknown"));
            proof {
                assert(a.deep_view() =~= seq!["Unknown"@]);
            }
            a
        };
        let bpm = match &analysis.audio_features {
            Some(af) => match af.bpm {
                Some(b) => Some((b / 100) as i64),
                None => None,
            },
            None => None,
        };
        let key = match &analysis.audio_features {
            Some(af) => match &af.key {
                Some(k) => Some(k.clone()),
                None => None,
            },
            None => None,
        };
        let mood = if analysis.moods.len() > 0 {
            Some(analysis.moods[0].tag.clone())
        } else {
            None
        };
        let duration = match info.duration {
            Some(d) => d,
            None => 0,
        };

        let mut other: Vec<(String, Vec<String>)> = Vec::new();
        if let Some(energy) = analysis.energy_level {
            let mut vals: Vec<String> = Vec::new();
            vals.push(text::fmt_units(energy));
            other.push((String::from_str("AI_ENERGY"), vals));
        }
        if let Some(danceability) = analysis.danceability {
            let mut vals: Vec<String> = Vec::new();
            vals.push(text::fmt_units(danceability));
            other.push((String::from_str("AI_DANCEABILITY"), vals));
        }
        if analysis.llm_suggestions.len() > 0 {
            other.push((String::from_str("AI_TAGS"), copy_string_vec(&analysis.llm_suggestions)));
        }
        proof {
            assert(other@.map_values(|p: (String, Vec<String>)| (p.0@, p.1.deep_view()))
                =~~= spec_other_frames(*analysis));
        }

        let track = Track {
            platform: String::from_str("ai"),
            title,
            artists,
            genres: tag_names_vec(&analysis.genres),
            styles: tag_names_vec(&analysis.custom_tags),
            bpm,
            key,
            mood,
            duration,
            url: String::new(),
            label: None,
            release_date: None,
            release_year: None,
            art: None,
            other,
        };
        let mut matches: Vec<TrackMatch> = Vec::new();
        matches.push(TrackMatch::new(analysis.confidence, track));
        matches
    }

    /// Nothing to extend: every field is gathered when the track is
    /// matched.
    pub fn extend_track(&self, track: &mut Track)
        ensures
            *final(track) == *old(track),
    {
    }
}

} // verus!
