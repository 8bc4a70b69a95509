//! Audio-track tag analysis: deterministic feature-threshold classifiers, an
//! optional LLM suggestion step specified at its request/response boundary,
//! taxonomy mapping against user-defined tag collections, and a confidence-
//! scored result.
//!
//! Fractional quantities are fixed-point integers: confidence values and
//! unit-interval features carry ten-thousandths of 1.0, scores on the 0-100
//! scale carry hundredths of a point, BPM and Hz carry hundredths.

use vstd::prelude::*;

pub mod api;
pub mod classifier;
pub mod config;
pub mod duplicates;
pub mod embeddings;
pub mod features;
pub mod playlist;
pub mod tagger;
pub mod quality;
pub mod text;
pub mod track;

pub use config::{AIConfig, CustomTagConfig, APIConfig, APIProvider};
pub use config::PlaylistConfig;
pub use features::{AudioFeatures, FeatureExtractor};
pub use classifier::{GenreClassifier, MoodDetector, EnergyAnalyzer};
pub use embeddings::{EmbeddingGenerator, SemanticMatcher};
pub use duplicates::{DuplicateDetector, DuplicateMatch};
pub use quality::{QualityControl, ValidationResult};
pub use playlist::PlaylistGenerator;
pub use tagger::AITagger;
pub use track::{AudioFileInfo, Track, TrackMatch};
pub use api::{AiError, ApiRequest};

verus! {

/// The fixed-point scale: 10000 stands for a confidence of 1.0 and for a
/// score of 100.00 points.
pub const SCALE: u32 = 10000;

/// A tag with its confidence score (ten-thousandths of 1.0).
#[derive(Debug, Clone)]
pub struct TagWithConfidence {
    pub tag: String,
    pub confidence: u32,
}

/// Clamp a raw confidence to the unit interval.
pub open spec fn clamp_confidence(c: u32) -> u32 {
    if c > SCALE {
        SCALE as u32
    } else {
        c
    }
}

impl TagWithConfidence {
    /// The confidence lies in the unit interval.
    pub open spec fn wf(self) -> bool {
        self.confidence <= SCALE
    }

    /// Build a tag, clamping the confidence into the unit interval.
    pub fn new(tag: String, confidence: u32) -> (r: Self)
        ensures
            r.tag@ == tag@,
            r.confidence == clamp_confidence(confidence),
            r.wf(),
    {
        let c = if confidence > SCALE { SCALE } else { confidence };
        TagWithConfidence { tag, confidence: c }
    }
}

/// The `(view, confidence)` pairs of a tag list; contracts are stated over
/// this shape.
pub open spec fn tags_view(v: Seq<TagWithConfidence>) -> Seq<(Seq<char>, u32)> {
    v.map_values(|t: TagWithConfidence| (t.tag@, t.confidence))
}

/// All tags in the list carry a clamped confidence.
pub open spec fn tags_wf(v: Seq<TagWithConfidence>) -> bool {
    forall|i: int| 0 <= i < v.len() ==> (#[trigger] v[i]).wf()
}

/// The tag pairs whose confidence reaches the threshold, in order.
pub open spec fn above_threshold(s: Seq<(Seq<char>, u32)>, threshold: u32) -> Seq<(Seq<char>, u32)> {
    s.filter(|p: (Seq<char>, u32)| p.1 >= threshold)
}

/// Filtering one more element keeps it exactly when the predicate holds.
pub proof fn lemma_filter_push<A>(s: Seq<A>, pred: spec_fn(A) -> bool, x: A)
    ensures
        s.push(x).filter(pred) == if pred(x) {
            s.filter(pred).push(x)
        } else {
            s.filter(pred)
        },
{
    reveal(Seq::filter);
    assert(s.push(x).drop_last() =~= s);
    assert(s.push(x).last() == x);
}

/// Threshold filtering of one more tag keeps it exactly when its confidence
/// reaches the threshold.
pub proof fn lemma_above_threshold_push(s: Seq<(Seq<char>, u32)>, x: (Seq<char>, u32), thr: u32)
    ensures
        above_threshold(s.push(x), thr) == if x.1 >= thr {
            above_threshold(s, thr).push(x)
        } else {
            above_threshold(s, thr)
        },
{
    let pred = |p: (Seq<char>, u32)| p.1 >= thr;
    lemma_filter_push(s, pred, x);
    assert(pred(x) == (x.1 >= thr));
}

// ---------------------------------------------------------------------------
// Analysis result
// ---------------------------------------------------------------------------

/// The analysis output for a single track. Scores on the 0-100 scale carry
/// hundredths of a point; the overall confidence carries ten-thousandths.
#[derive(Debug, Clone)]
pub struct AIAnalysisResult {
    /// Detected genres with confidence scores.
    pub genres: Vec<TagWithConfidence>,
    /// Detected moods.
    pub moods: Vec<TagWithConfidence>,
    /// Tags matched against the user's custom taxonomy.
    pub custom_tags: Vec<TagWithConfidence>,
    /// Energy level on the 0-100 scale, when energy analysis ran.
    pub energy_level: Option<u32>,
    /// Danceability on the 0-100 scale.
    pub danceability: Option<u32>,
    /// Aggression on the 0-100 scale.
    pub aggression: Option<u32>,
    /// Overall confidence in the unit interval.
    pub confidence: u32,
    /// The feature record the analysis used.
    pub audio_features: Option<features::AudioFeatures>,
    /// Description generated by the language model, when one answered.
    pub description: Option<String>,
    /// Raw tag suggestions from the language model, before taxonomy mapping.
    pub llm_suggestions: Vec<String>,
}

impl AIAnalysisResult {
    /// Every confidence and score lies on its scale.
    pub open spec fn wf(self) -> bool {
        &&& tags_wf(self.genres@)
        &&& tags_wf(self.moods@)
        &&& tags_wf(self.custom_tags@)
        &&& (self.energy_level matches Some(e) ==> e <= SCALE)
        &&& (self.danceability matches Some(d) ==> d <= SCALE)
        &&& (self.aggression matches Some(a) ==> a <= SCALE)
        &&& self.confidence <= SCALE
    }
}

impl Default for AIAnalysisResult {
    /// An empty result: no tags, no scores, zero confidence.
    fn default() -> (r: Self)
        ensures
            r.genres@.len() == 0,
            r.moods@.len() == 0,
            r.custom_tags@.len() == 0,
            r.energy_level is None,
            r.danceability is None,
            r.aggression is None,
            r.confidence == 0,
            r.audio_features is None,
            r.description is None,
            r.llm_suggestions@.len() == 0,
            r.wf(),
    {
        AIAnalysisResult {
            genres: Vec::new(),
            moods: Vec::new(),
            custom_tags: Vec::new(),
            energy_level: None,
            danceability: None,
            aggression: None,
            confidence: 0,
            audio_features: None,
            description: None,
            llm_suggestions: Vec::new(),
        }
    }
}

// ---------------------------------------------------------------------------
// API key URLs
// ---------------------------------------------------------------------------

/// Where a free API key for each provider can be obtained.
pub open spec fn spec_api_key_url(p: APIProvider) -> Seq<char> {
    match p {
        APIProvider::Gemini => "https://aistudio.google.com/app/apikey"@,
        APIProvider::OpenRouter => "https://openrouter.ai/keys"@,
        APIProvider::Groq => "https://console.groq.com/keys"@,
        APIProvider::TogetherAI => "https://api.together.xyz/settings/api-keys"@,
        APIProvider::OpenAI => "https://platform.openai.com/api-keys"@,
        APIProvider::Custom => "Contact your provider"@,
    }
}

/// The URL at which an API key for the provider can be obtained.
pub fn get_api_key_url(provider: &APIProvider) -> (r: &'static str)
    ensures
        r@ == spec_api_key_url(*provider),
{
    match provider {
        APIProvider::Gemini => "https://aistudio.google.com/app/apikey",
        APIProvider::OpenRouter => "https://openrouter.ai/keys",
        APIProvider::Groq => "https://console.groq.com/keys",
        APIProvider::TogetherAI => "https://api.together.xyz/settings/api-keys",
        APIProvider::OpenAI => "https://platform.openai.com/api-keys",
        APIProvider::Custom => "Contact your provider",
    }
}

// ---------------------------------------------------------------------------
// Taxonomy mapping
// ---------------------------------------------------------------------------

/// Whether some entry of `list` equals `t` up to ASCII case.
pub open spec fn list_has_ci(list: Seq<Seq<char>>, t: Seq<char>) -> bool {
    exists|i: int| 0 <= i < list.len() && text::eq_ignore_ascii(#[trigger] list[i], t)
}

/// The tags whose name appears in `list`, case-insensitively, in order.
pub open spec fn spec_matched_tags(
    tags: Seq<(Seq<char>, u32)>,
    list: Seq<Seq<char>>,
) -> Seq<(Seq<char>, u32)> {
    tags.filter(|p: (Seq<char>, u32)| list_has_ci(list, p.0))
}

/// Whether any of the named collections contains `t`, case-insensitively.
pub open spec fn any_collection_has(
    colls: Seq<(Seq<char>, Seq<Seq<char>>)>,
    t: Seq<char>,
) -> bool {
    exists|i: int| 0 <= i < colls.len() && list_has_ci((#[trigger] colls[i]).1, t)
}

/// The fixed confidence given to a language-model suggestion that matches a
/// custom collection: the model reports no score of its own.
pub const LLM_TAG_CONFIDENCE: u32 = 8000;

/// The suggestions found in some custom collection, each paired with the
/// fixed suggestion confidence, in order.
pub open spec fn spec_suggestion_tags(
    sugs: Seq<Seq<char>>,
    colls: Seq<(Seq<char>, Seq<Seq<char>>)>,
) -> Seq<(Seq<char>, u32)> {
    sugs.filter(|t: Seq<char>| any_collection_has(colls, t)).map_values(
        |t: Seq<char>| (t, LLM_TAG_CONFIDENCE as u32),
    )
}

/// The custom tags of a result: its genres and moods that appear in the
/// user's genre and mood lists, then its suggestions that appear in any
/// custom collection.
pub open spec fn spec_custom_tags(
    r: AIAnalysisResult,
    cfg: CustomTagConfig,
) -> Seq<(Seq<char>, u32)> {
    spec_matched_tags(tags_view(r.genres@), cfg.genres.deep_view()) + spec_matched_tags(
        tags_view(r.moods@),
        cfg.moods.deep_view(),
    ) + spec_suggestion_tags(r.llm_suggestions@.map_values(|s: String| s@), colls_view(cfg))
}

/// The named custom collections at the view level.
pub open spec fn colls_view(cfg: CustomTagConfig) -> Seq<(Seq<char>, Seq<Seq<char>>)> {
    cfg.custom_collections@.map_values(
        |p: (String, Vec<String>)| (p.0@, p.1.deep_view()),
    )
}

proof fn lemma_matched_push(tags: Seq<(Seq<char>, u32)>, x: (Seq<char>, u32), list: Seq<Seq<char>>)
    ensures
        spec_matched_tags(tags.push(x), list) == if list_has_ci(list, x.0) {
            spec_matched_tags(tags, list).push(x)
        } else {
            spec_matched_tags(tags, list)
        },
{
    let pred = |p: (Seq<char>, u32)| list_has_ci(list, p.0);
    lemma_filter_push(tags, pred, x);
    assert(pred(x) == list_has_ci(list, x.0));
}

proof fn lemma_suggestion_push(
    sugs: Seq<Seq<char>>,
    x: Seq<char>,
    colls: Seq<(Seq<char>, Seq<Seq<char>>)>,
)
    ensures
        spec_suggestion_tags(sugs.push(x), colls) == if any_collection_has(colls, x) {
            spec_suggestion_tags(sugs, colls).push((x, LLM_TAG_CONFIDENCE as u32))
        } else {
            spec_suggestion_tags(sugs, colls)
        },
{
    let pred = |t: Seq<char>| any_collection_has(colls, t);
    let f = |t: Seq<char>| (t, LLM_TAG_CONFIDENCE as u32);
    lemma_filter_push(sugs, pred, x);
    assert(pred(x) == any_collection_has(colls, x));
    if pred(x) {
        assert(sugs.filter(pred).push(x).map_values(f) =~= sugs.filter(pred).map_values(f).push(
            f(x),
        ));
    }
}

/// Whether some entry of `list` equals `tag` up to ASCII case.
fn list_matches_ci(list: &Vec<String>, tag: &str) -> (r: bool)
    ensures
        r == list_has_ci(list.deep_view(), tag@),
{
    let mut i: usize = 0;
    while i < list.len()
        invariant
            i <= list@.len(),
            list.deep_view().len() == list@.len(),
            forall|k: int| 0 <= k < list@.len() ==> list.deep_view()[k] == list@[k]@,
            forall|k: int| 0 <= k < i ==> !text::eq_ignore_ascii(list.deep_view()[k], tag@),
        decreases list@.len() - i,
    {
        if text::eq_ignore_ascii_case(list[i].as_str(), tag) {
            proof {
                assert(text::eq_ignore_ascii(list.deep_view()[i as int], tag@));
            }
            return true;
        }
        i = i + 1;
    }
    false
}

/// Whether any named custom collection contains `tag`, case-insensitively.
fn any_collection_matches(colls: &Vec<(String, Vec<String>)>, tag: &str) -> (r: bool)
    ensures
        r == any_collection_has(
            colls@.map_values(|p: (String, Vec<String>)| (p.0@, p.1.deep_view())),
            tag@,
        ),
{
    let ghost cv = colls@.map_values(|p: (String, Vec<String>)| (p.0@, p.1.deep_view()));
    let mut i: usize = 0;
    while i < colls.len()
        invariant
            i <= colls@.len(),
            cv == colls@.map_values(|p: (String, Vec<String>)| (p.0@, p.1.deep_view())),
            cv.len() == colls@.len(),
            forall|k: int| 0 <= k < i ==> !list_has_ci((#[trigger] cv[k]).1, tag@),
        decreases colls@.len() - i,
    {
        proof {
            assert(cv[i as int] == (colls@[i as int].0@, colls@[i as int].1.deep_view()));
        }
        if list_matches_ci(&colls[i].1, tag) {
            return true;
        }
        i = i + 1;
    }
    false
}

/// Map a result's tags and suggestions onto the user's custom taxonomy. A
/// genre or mood is kept, with its confidence, when the matching list names
/// it; a suggestion matching any named collection is kept at the fixed
/// suggestion confidence.
pub fn map_to_custom_tags(
    result: &AIAnalysisResult,
    custom_config: &CustomTagConfig,
) -> (r: Vec<TagWithConfidence>)
    ensures
        tags_view(r@) == spec_custom_tags(*result, *custom_config),
        tags_wf(result.genres@) && tags_wf(result.moods@) ==> tags_wf(r@),
{
    let mut custom_tags: Vec<TagWithConfidence> = Vec::new();
    let ghost gv = tags_view(result.genres@);
    let ghost mv = tags_view(result.moods@);
    let ghost glist = custom_config.genres.deep_view();
    let ghost mlist = custom_config.moods.deep_view();
    let ghost cv = colls_view(*custom_config);

    let mut i: usize = 0;
    proof {
        assert(gv.subrange(0, 0) =~= Seq::<(Seq<char>, u32)>::empty());
        reveal(Seq::filter);
    }
    while i < result.genres.len()
        invariant
            i <= result.genres@.len(),
            gv == tags_view(result.genres@),
            glist == custom_config.genres.deep_view(),
            gv.len() == result.genres@.len(),
            tags_view(custom_tags@) == spec_matched_tags(gv.subrange(0, i as int), glist),
            tags_wf(result.genres@) ==> tags_wf(custom_tags@),
        decreases result.genres@.len() - i,
    {
        let ghost pre = gv.subrange(0, i as int);
        let ghost x = gv[i as int];
        let ghost before = custom_tags@;
        proof {
            assert(x == (result.genres@[i as int].tag@, result.genres@[i as int].confidence));
        }
        let g = &result.genres[i];
        if list_matches_ci(&custom_config.genres, g.tag.as_str()) {
            let copied = TagWithConfidence { tag: g.tag.clone(), confidence: g.confidence };
            assert(copied == result.genres@[i as int]);
            custom_tags.push(copied);
            proof {
                assert(tags_view(custom_tags@) =~= tags_view(before).push(x));
            }
        }
        proof {
            lemma_matched_push(pre, x, glist);
            assert(gv.subrange(0, i + 1) =~= pre.push(x));
        }
        i = i + 1;
    }
    proof {
        assert(gv.subrange(0, gv.len() as int) =~= gv);
    }
    let ghost genre_part = tags_view(custom_tags@);

    let mut j: usize = 0;
    proof {
        assert(mv.subrange(0, 0) =~= Seq::<(Seq<char>, u32)>::empty());
        assert(tags_view(custom_tags@) =~= genre_part + spec_matched_tags(
            mv.subrange(0, 0),
            mlist,
        ));
    }
    while j < result.moods.len()
        invariant
            j <= result.moods@.len(),
            mv == tags_view(result.moods@),
            mlist == custom_config.moods.deep_view(),
            mv.len() == result.moods@.len(),
            genre_part == spec_matched_tags(gv, glist),
            tags_view(custom_tags@) == genre_part + spec_matched_tags(
                mv.subrange(0, j as int),
                mlist,
            ),
            tags_wf(result.genres@) && tags_wf(result.moods@) ==> tags_wf(custom_tags@),
        decreases result.moods@.len() - j,
    {
        let ghost pre = mv.subrange(0, j as int);
        let ghost x = mv[j as int];
        let ghost before = custom_tags@;
        proof {
            assert(x == (result.moods@[j as int].tag@, result.moods@[j as int].confidence));
        }
        let m = &result.moods[j];
        if list_matches_ci(&custom_config.moods, m.tag.as_str()) {
            let copied = TagWithConfidence { tag: m.tag.clone(), confidence: m.confidence };
            assert(copied == result.moods@[j as int]);
            custom_tags.push(copied);
            proof {
                assert(tags_view(custom_tags@) =~= tags_view(before).push(x));
            }
        }
        proof {
            lemma_matched_push(pre, x, mlist);
            assert(mv.subrange(0, j + 1) =~= pre.push(x));
        }
        j = j + 1;
    }
    proof {
        assert(mv.subrange(0, mv.len() as int) =~= mv);
    }
    let ghost gm_part = tags_view(custom_tags@);

    let ghost sv = result.llm_suggestions@.map_values(|s: String| s@);
    let mut k: usize = 0;
    proof {
        assert(sv.subrange(0, 0) =~= Seq::<Seq<char>>::empty());
        assert(spec_suggestion_tags(sv.subrange(0, 0), cv) =~= Seq::<(Seq<char>, u32)>::empty());
        assert(tags_view(custom_tags@) =~= gm_part + spec_suggestion_tags(sv.subrange(0, 0), cv));
    }
    while k < result.llm_suggestions.len()
        invariant
            k <= result.llm_suggestions@.len(),
            sv == result.llm_suggestions@.map_values(|s: String| s@),
            cv == colls_view(*custom_config),
            sv.len() == result.llm_suggestions@.len(),
            gm_part == spec_matched_tags(gv, glist) + spec_matched_tags(mv, mlist),
            gv == tags_view(result.genres@),
            mv == tags_view(result.moods@),
            glist == custom_config.genres.deep_view(),
            mlist == custom_config.moods.deep_view(),
            tags_view(custom_tags@) == gm_part + spec_suggestion_tags(
                sv.subrange(0, k as int),
                cv,
            ),
            tags_wf(result.genres@) && tags_wf(result.moods@) ==> tags_wf(custom_tags@),
        decreases result.llm_suggestions@.len() - k,
    {
        let ghost pre = sv.subrange(0, k as int);
        let ghost x = sv[k as int];
        let ghost before = custom_tags@;
        proof {
            assert(x == result.llm_suggestions@[k as int]@);
        }
        let suggestion = &result.llm_suggestions[k];
        if any_collection_matches(&custom_config.custom_collections, suggestion.as_str()) {
            let added = TagWithConfidence::new(suggestion.clone(), LLM_TAG_CONFIDENCE);
            custom_tags.push(added);
            proof {
                assert(tags_view(custom_tags@) =~= tags_view(before).push(
                    (x, LLM_TAG_CONFIDENCE as u32),
                ));
            }
        }
        proof {
            lemma_suggestion_push(pre, x, cv);
            assert(sv.subrange(0, k + 1) =~= pre.push(x));
        }
        k = k + 1;
    }
    proof {
        assert(sv.subrange(0, sv.len() as int) =~= sv);
    }
    custom_tags
}

// ---------------------------------------------------------------------------
// Orchestration
// ---------------------------------------------------------------------------

/// Feature records with the same content, field by field (string and vector
/// fields compared by their views).
pub open spec fn features_equiv(a: AudioFeatures, b: AudioFeatures) -> bool {
    &&& a.bpm == b.bpm
    &&& (match (a.key, b.key) {
        (Option::Some(x), Option::Some(y)) => x@ == y@,
        (Option::None, Option::None) => true,
        _ => false,
    })
    &&& a.duration == b.duration
    &&& a.spectral_centroid == b.spectral_centroid
    &&& a.spectral_rolloff == b.spectral_rolloff
    &&& a.spectral_flux == b.spectral_flux
    &&& a.zero_crossing_rate == b.zero_crossing_rate
    &&& a.rms_energy == b.rms_energy
    &&& a.mfccs@ == b.mfccs@
    &&& a.chroma@ == b.chroma@
    &&& a.onset_strength == b.onset_strength
    &&& a.tempo_stability == b.tempo_stability
}

/// Copy a vector of coefficients.
fn copy_i32_vec(v: &Vec<i32>) -> (r: Vec<i32>)
    ensures
        r@ == v@,
{
    let mut out: Vec<i32> = Vec::new();
    let mut i: usize = 0;
    while i < v.len()
        invariant
            i <= v@.len(),
            out@ =~= v@.subrange(0, i as int),
        decreases v@.len() - i,
    {
        out.push(v[i]);
        i = i + 1;
    }
    proof {
        assert(v@.subrange(0, v@.len() as int) =~= v@);
    }
    out
}

/// A content-equal copy of a feature record.
fn duplicate_features(f: &AudioFeatures) -> (r: AudioFeatures)
    ensures
        features_equiv(r, *f),
        f.wf() ==> r.wf(),
{
    AudioFeatures {
        bpm: f.bpm,
        key: match &f.key {
            Some(k) => Some(k.clone()),
            None => None,
        },
        duration: f.duration,
        spectral_centroid: f.spectral_centroid,
        spectral_rolloff: f.spectral_rolloff,
        spectral_flux: f.spectral_flux,
        zero_crossing_rate: f.zero_crossing_rate,
        rms_energy: f.rms_energy,
        mfccs: copy_i32_vec(&f.mfccs),
        chroma: copy_i32_vec(&f.chroma),
        onset_strength: f.onset_strength,
        tempo_stability: f.tempo_stability,
    }
}

/// The genre tags an analysis run produces: the classifier output when the
/// feature is enabled, else nothing.
pub open spec fn spec_result_genres(f: AudioFeatures, c: AIConfig) -> Seq<(Seq<char>, u32)> {
    if c.enable_genre_classification {
        classifier::spec_classify_genres(f, c.confidence_threshold)
    } else {
        Seq::<(Seq<char>, u32)>::empty()
    }
}

/// The mood tags an analysis run produces.
pub open spec fn spec_result_moods(f: AudioFeatures, c: AIConfig) -> Seq<(Seq<char>, u32)> {
    if c.enable_mood_detection {
        classifier::spec_detect_moods(f, c.confidence_threshold)
    } else {
        Seq::<(Seq<char>, u32)>::empty()
    }
}

/// Run the enabled rule classifiers over a feature record: genres, moods
/// and the energy scores, with the feature record stored in the result.
/// Never fails on a well-formed record.
pub fn analyze_rule_based(features: &AudioFeatures, config: &AIConfig) -> (r: AIAnalysisResult)
    ensures
        tags_view(r.genres@) == spec_result_genres(*features, *config),
        tags_view(r.moods@) == spec_result_moods(*features, *config),
        r.custom_tags@.len() == 0,
        r.energy_level == if config.enable_energy_analysis {
            Some(classifier::spec_energy_level(*features))
        } else {
            Option::<u32>::None
        },
        r.danceability == if config.enable_energy_analysis {
            Some(classifier::spec_danceability(*features))
        } else {
            Option::<u32>::None
        },
        r.aggression == if config.enable_energy_analysis {
            Some(classifier::spec_aggression(*features))
        } else {
            Option::<u32>::None
        },
        r.confidence == 0,
        r.audio_features matches Some(af) && features_equiv(af, *features),
        r.description is None,
        r.llm_suggestions@.len() == 0,
        r.wf(),
{
    let mut result = AIAnalysisResult::default();
    result.audio_features = Some(duplicate_features(features));

    if config.enable_genre_classification {
        let genre_classifier = GenreClassifier::new(config);
        result.genres = genre_classifier.classify(features);
    }
    if config.enable_mood_detection {
        let mood_detector = MoodDetector::new(config);
        result.moods = mood_detector.detect(features);
    }
    if config.enable_energy_analysis {
        let analyzer = EnergyAnalyzer::new(config);
        let energy = analyzer.analyze(features);
        result.energy_level = Some(energy.energy_level);
        result.danceability = Some(energy.danceability);
        result.aggression = Some(energy.aggression);
    }
    proof {
        if !config.enable_genre_classification {
            assert(tags_view(result.genres@) =~= Seq::<(Seq<char>, u32)>::empty());
        }
        if !config.enable_mood_detection {
            assert(tags_view(result.moods@) =~= Seq::<(Seq<char>, u32)>::empty());
        }
    }
    result
}

/// Merge the text-generation outcome into a result. A successful answer is
/// parsed into a description and suggestions; a failed or skipped step
/// leaves the result exactly as it was, so the pipeline degrades to its
/// rule-based output.
pub fn apply_llm_outcome(
    result: &mut AIAnalysisResult,
    outcome: Option<Result<String, api::AiError>>,
)
    ensures
        outcome matches Some(Ok(t)) ==> {
            &&& final(result).description matches Some(d) && d@ == spec_description(
                text::spec_trim(t@),
            )
            &&& final(result).llm_suggestions.deep_view() == spec_parse_tags(t@)
            &&& final(result).genres == old(result).genres
            &&& final(result).moods == old(result).moods
            &&& final(result).custom_tags == old(result).custom_tags
            &&& final(result).energy_level == old(result).energy_level
            &&& final(result).danceability == old(result).danceability
            &&& final(result).aggression == old(result).aggression
            &&& final(result).confidence == old(result).confidence
            &&& final(result).audio_features == old(result).audio_features
        },
        !(outcome matches Some(Ok(t))) ==> *final(result) == *old(result),
{
    if let Some(Ok(text)) = outcome {
        let parsed = parse_llm_response(text.as_str());
        result.description = Some(parsed.0);
        result.llm_suggestions = parsed.1;
    }
}

/// Map the collected tags onto the user's custom taxonomy (skipped when no
/// custom genres are configured) and compute the overall confidence.
pub fn finalize_analysis(result: &mut AIAnalysisResult, config: &AIConfig)
    requires
        old(result).wf(),
    ensures
        tags_view(final(result).custom_tags@) == if config.custom_tags.genres@.len() > 0 {
            spec_custom_tags(*old(result), config.custom_tags)
        } else {
            tags_view(old(result).custom_tags@)
        },
        final(result).confidence == spec_overall_confidence(*final(result)),
        final(result).genres == old(result).genres,
        final(result).moods == old(result).moods,
        final(result).energy_level == old(result).energy_level,
        final(result).danceability == old(result).danceability,
        final(result).aggression == old(result).aggression,
        final(result).audio_features == old(result).audio_features,
        final(result).description == old(result).description,
        final(result).llm_suggestions == old(result).llm_suggestions,
        final(result).wf(),
{
    if config.custom_tags.genres.len() > 0 {
        let mapped = map_to_custom_tags(result, &config.custom_tags);
        result.custom_tags = mapped;
    }
    let overall = calculate_overall_confidence(result);
    result.confidence = overall;
}

/// Analyze one track from its feature record: run the enabled classifiers,
/// merge the text-generation outcome (`None` when the step was skipped for
/// want of an API key, `Some(Err(..))` when it failed), map onto the custom
/// taxonomy, and score the overall confidence. Classification never fails;
/// a failed text-generation step only leaves the description empty and the
/// suggestion list empty.
pub fn analyze_track(
    features: &AudioFeatures,
    config: &AIConfig,
    llm_outcome: Option<Result<String, api::AiError>>,
) -> (r: AIAnalysisResult)
    ensures
        tags_view(r.genres@) == spec_result_genres(*features, *config),
        tags_view(r.moods@) == spec_result_moods(*features, *config),
        r.energy_level == if config.enable_energy_analysis {
            Some(classifier::spec_energy_level(*features))
        } else {
            Option::<u32>::None
        },
        r.danceability == if config.enable_energy_analysis {
            Some(classifier::spec_danceability(*features))
        } else {
            Option::<u32>::None
        },
        r.aggression == if config.enable_energy_analysis {
            Some(classifier::spec_aggression(*features))
        } else {
            Option::<u32>::None
        },
        llm_outcome matches Some(Ok(t)) ==> {
            &&& r.description matches Some(d) && d@ == spec_description(text::spec_trim(t@))
            &&& r.llm_suggestions.deep_view() == spec_parse_tags(t@)
        },
        !(llm_outcome matches Some(Ok(t))) ==> r.description is None && r.llm_suggestions@.len()
            == 0,
        tags_view(r.custom_tags@) == if config.custom_tags.genres@.len() > 0 {
            spec_custom_tags(r, config.custom_tags)
        } else {
            Seq::<(Seq<char>, u32)>::empty()
        },
        r.confidence == spec_overall_confidence(r),
        r.audio_features matches Some(af) && features_equiv(af, *features),
        r.wf(),
{
    let mut result = analyze_rule_based(features, config);
    apply_llm_outcome(&mut result, llm_outcome);
    let ghost mid = result;
    finalize_analysis(&mut result, config);
    proof {
        if config.custom_tags.genres@.len() > 0 {
            assert(spec_custom_tags(mid, config.custom_tags) == spec_custom_tags(
                result,
                config.custom_tags,
            ));
        } else {
            assert(tags_view(result.custom_tags@) =~= Seq::<(Seq<char>, u32)>::empty());
        }
    }
    result
}

// ---------------------------------------------------------------------------
// Stated laws
// ---------------------------------------------------------------------------

/// With no BPM in the record, no BPM-gated genre rule fires: the genre
/// classifier returns nothing at all, at any threshold.
pub proof fn lemma_no_bpm_no_genres(f: AudioFeatures, threshold: u32)
    requires
        f.bpm is None,
    ensures
        classifier::spec_classify_genres(f, threshold) == Seq::<(Seq<char>, u32)>::empty(),
{
    reveal(Seq::filter);
    assert(classifier::spec_genre_candidates(f).len() == 0);
    assert(classifier::spec_classify_genres(f, threshold) =~= Seq::<(Seq<char>, u32)>::empty());
}

/// With no tags collected at all, the overall confidence is the defined
/// neutral value 0.5.
pub proof fn lemma_overall_confidence_empty(r: AIAnalysisResult)
    requires
        r.genres@.len() == 0,
        r.moods@.len() == 0,
        r.custom_tags@.len() == 0,
    ensures
        spec_overall_confidence(r) == 5000,
{
    assert(all_scored_tags(r).len() == 0);
}

/// With exactly one tag collected, the overall confidence is that tag's
/// confidence.
pub proof fn lemma_overall_confidence_single(r: AIAnalysisResult)
    requires
        all_scored_tags(r).len() == 1,
    ensures
        spec_overall_confidence(r) == all_scored_tags(r)[0].1,
{
    let all = all_scored_tags(r);
    assert(all.drop_last() =~= Seq::<(Seq<char>, u32)>::empty());
    assert(conf_sum(Seq::<(Seq<char>, u32)>::empty()) == 0);
    assert(all.last() == all[0]);
    assert(conf_sum(all) == all[0].1);
}

// ---------------------------------------------------------------------------
// Response parsing
// ---------------------------------------------------------------------------

/// Whether `c` separates tags in a model response.
pub open spec fn is_sep(c: char) -> bool {
    c == ',' || c == '\n' || c == ';'
}

/// The response split at separator characters; always at least one
/// (possibly empty) segment.
pub open spec fn split_segments(s: Seq<char>) -> Seq<Seq<char>>
    decreases s.len(),
{
    if s.len() == 0 {
        seq![Seq::<char>::empty()]
    } else {
        let rest = split_segments(s.drop_last());
        if is_sep(s.last()) {
            rest.push(Seq::<char>::empty())
        } else {
            rest.update(rest.len() - 1, rest.last().push(s.last()))
        }
    }
}

/// A segment list always holds at least one segment.
pub proof fn lemma_split_nonempty(s: Seq<char>)
    ensures
        split_segments(s).len() >= 1,
    decreases s.len(),
{
    if s.len() > 0 {
        lemma_split_nonempty(s.drop_last());
    }
}

/// A trimmed segment is kept when it is non-empty and under fifty bytes in
/// its UTF-8 form.
pub open spec fn keep_segment(t: Seq<char>) -> bool {
    t.len() > 0 && (vstd::utf8::encode_utf8(t).len() as usize) < 50
}

/// The normalized form of a kept segment: lower-cased, spaces hyphenated.
pub open spec fn norm_tag(t: Seq<char>) -> Seq<char> {
    text::spec_dashed(text::lower_of(t))
}

/// The normalized tags of a segment list, in order, before the cap: each
/// segment trimmed, dropped when empty or too long, else normalized.
pub open spec fn segment_tags(segs: Seq<Seq<char>>) -> Seq<Seq<char>>
    decreases segs.len(),
{
    if segs.len() == 0 {
        Seq::<Seq<char>>::empty()
    } else {
        let rest = segment_tags(segs.drop_last());
        let t = text::spec_trim(segs.last());
        if keep_segment(t) {
            rest.push(norm_tag(t))
        } else {
            rest
        }
    }
}

/// At most ten tags are kept.
pub open spec fn cap10(s: Seq<Seq<char>>) -> Seq<Seq<char>> {
    if s.len() <= 10 {
        s
    } else {
        s.subrange(0, 10)
    }
}

/// The tag list parsed from a raw response: the trimmed response split at
/// separators, each segment trimmed, filtered and normalized, capped at ten.
pub open spec fn spec_parse_tags(response: Seq<char>) -> Seq<Seq<char>> {
    cap10(segment_tags(split_segments(text::spec_trim(response))))
}

/// The first line of `s`: everything before the first newline.
pub open spec fn first_line(s: Seq<char>) -> Seq<char>
    decreases s.len(),
{
    if s.len() == 0 {
        Seq::<char>::empty()
    } else if s[0] == '\n' {
        Seq::<char>::empty()
    } else {
        seq![s[0]] + first_line(s.drop_first())
    }
}

/// The description drawn from a trimmed response: its first line, with a
/// carriage return before the newline stripped.
pub open spec fn spec_description(s: Seq<char>) -> Seq<char> {
    let l = first_line(s);
    if l.len() > 0 && l.last() == '\r' {
        l.drop_last()
    } else {
        l
    }
}

proof fn lemma_first_line_at(s: Seq<char>, j: int)
    requires
        0 <= j <= s.len(),
        forall|k: int| 0 <= k < j ==> s[k] != '\n',
        j == s.len() || s[j] == '\n',
    ensures
        first_line(s) == s.subrange(0, j),
    decreases j,
{
    if j == 0 {
        assert(first_line(s) =~= s.subrange(0, 0));
    } else {
        let t = s.drop_first();
        lemma_first_line_at(t, j - 1);
        assert(t.subrange(0, j - 1) =~= s.subrange(1, j));
        assert(first_line(s) == seq![s[0]] + first_line(t));
        assert(seq![s[0]] + s.subrange(1, j) =~= s.subrange(0, j));
    }
}

/// What processing one more segment does to a capped tag list.
pub open spec fn push_segment_tags(acc: Seq<Seq<char>>, seg: Seq<char>) -> Seq<Seq<char>> {
    let t = text::spec_trim(seg);
    if keep_segment(t) && acc.len() < 10 {
        acc.push(norm_tag(t))
    } else {
        acc
    }
}

proof fn lemma_segment_step(done: Seq<Seq<char>>, seg: Seq<char>, acc: Seq<Seq<char>>)
    requires
        acc == cap10(segment_tags(done)),
    ensures
        push_segment_tags(acc, seg) == cap10(segment_tags(done.push(seg))),
{
    let rest = segment_tags(done);
    assert(done.push(seg).drop_last() =~= done);
    assert(done.push(seg).last() == seg);
    let t = text::spec_trim(seg);
    if keep_segment(t) {
        assert(segment_tags(done.push(seg)) == rest.push(norm_tag(t)));
        if rest.len() < 10 {
            assert(acc == rest);
        } else {
            assert(acc == rest.subrange(0, 10));
            assert(acc.len() == 10);
            assert(cap10(rest.push(norm_tag(t))) =~= acc);
        }
    } else {
        assert(segment_tags(done.push(seg)) == rest);
    }
}

/// Trim, filter and normalize one segment, appending the tag when the
/// capped list still has room.
fn process_segment(tags: &mut Vec<String>, seg: &str)
    ensures
        final(tags).deep_view() == push_segment_tags(old(tags).deep_view(), seg@),
        final(tags)@.len() == push_segment_tags(old(tags).deep_view(), seg@).len(),
{
    let ghost acc = tags.deep_view();
    let t = text::trim(seg);
    let keep = t.as_str().unicode_len() > 0 && t.as_str().len() < 50;
    proof {
        assert(keep == keep_segment(text::spec_trim(seg@)));
        assert(acc.len() == tags@.len());
    }
    if keep && tags.len() < 10 {
        let lower = text::to_lowercase(t.as_str());
        let dashed = text::replace_spaces(lower.as_str());
        tags.push(dashed);
        proof {
            assert(tags.deep_view() =~= acc.push(norm_tag(text::spec_trim(seg@))));
        }
    }
}

/// Parse a raw model response into a description and a bounded list of
/// normalized tags. Parsing never fails: at worst the description and the
/// tag list come back empty.
///
/// The description is the first line of the trimmed response. The tags are
/// the trimmed response split at commas, newlines and semicolons; each
/// segment is trimmed, dropped when empty or fifty bytes or longer,
/// lower-cased with spaces hyphenated; at most ten are kept.
pub fn parse_llm_response(response: &str) -> (r: (String, Vec<String>))
    ensures
        r.0@ == spec_description(text::spec_trim(response@)),
        r.1.deep_view() == spec_parse_tags(response@),
        r.1@.len() <= 10,
{
    let cleaned = text::trim(response);
    let cs = cleaned.as_str();
    let n = cs.unicode_len();

    // Description: the first line, with a carriage return before the
    // newline stripped.
    let mut dend: usize = 0;
    while dend < n && cs.get_char(dend) != '\n'
        invariant
            n == cs@.len(),
            dend <= n,
            forall|k: int| 0 <= k < dend ==> cs@[k] != '\n',
        decreases n - dend,
    {
        dend = dend + 1;
    }
    proof {
        lemma_first_line_at(cs@, dend as int);
    }
    let line_end = if dend > 0 && cs.get_char(dend - 1) == '\r' {
        dend - 1
    } else {
        dend
    };
    let description = String::from_str(cs.substring_char(0, line_end));
    proof {
        let l = first_line(cs@);
        if dend > 0 && cs@[dend - 1] == '\r' {
            assert(l.last() == cs@[dend - 1]);
            assert(l.drop_last() =~= cs@.subrange(0, dend - 1));
        }
        assert(description@ == spec_description(cs@));
    }

    // Tags: split at separators, trimming and normalizing each segment.
    let mut tags: Vec<String> = Vec::new();
    let ghost mut done: Seq<Seq<char>> = Seq::<Seq<char>>::empty();
    let mut seg_start: usize = 0;
    let mut i: usize = 0;
    proof {
        assert(cs@.subrange(0, 0) =~= Seq::<char>::empty());
        assert(split_segments(cs@.subrange(0, 0)) =~= done + seq![cs@.subrange(0, 0)]);
        assert(tags.deep_view() =~= cap10(segment_tags(done)));
    }
    while i < n
        invariant
            n == cs@.len(),
            seg_start <= i <= n,
            split_segments(cs@.subrange(0, i as int)) == done + seq![
                cs@.subrange(seg_start as int, i as int),
            ],
            tags.deep_view() == cap10(segment_tags(done)),
            tags@.len() == cap10(segment_tags(done)).len(),
        decreases n - i,
    {
        let ghost cur = cs@.subrange(seg_start as int, i as int);
        let ghost prefix = cs@.subrange(0, i as int);
        let c = cs.get_char(i);
        proof {
            assert(cs@.subrange(0, i + 1).drop_last() =~= prefix);
            assert(cs@.subrange(0, i + 1).last() == c);
        }
        if c == ',' || c == '\n' || c == ';' {
            let seg = cs.substring_char(seg_start, i);
            proof {
                lemma_segment_step(done, cur, tags.deep_view());
            }
            process_segment(&mut tags, seg);
            proof {
                done = done.push(cur);
                assert(split_segments(cs@.subrange(0, i + 1)) =~~= done + seq![
                    cs@.subrange(i + 1, i + 1),
                ]);
            }
            seg_start = i + 1;
        } else {
            proof {
                let old_split = done + seq![cur];
                assert(old_split.len() - 1 == done.len());
                assert(old_split.last() == cur);
                assert(split_segments(cs@.subrange(0, i + 1)) == old_split.update(
                    old_split.len() - 1,
                    cur.push(c),
                ));
                assert(cur.push(c) =~= cs@.subrange(seg_start as int, i + 1));
                assert(old_split.update(old_split.len() - 1, cur.push(c)) =~= done + seq![
                    cs@.subrange(seg_start as int, i + 1),
                ]);
            }
        }
        i = i + 1;
    }
    // The last segment runs to the end of the response.
    let ghost cur = cs@.subrange(seg_start as int, n as int);
    let seg = cs.substring_char(seg_start, n);
    proof {
        lemma_segment_step(done, cur, tags.deep_view());
    }
    process_segment(&mut tags, seg);
    proof {
        done = done.push(cur);
        assert(cs@.subrange(0, n as int) =~= cs@);
        assert(split_segments(cs@) =~= done);
        assert(tags.deep_view() == spec_parse_tags(response@));
    }
    (description, tags)
}

// ---------------------------------------------------------------------------
// Prompt building
// ---------------------------------------------------------------------------

/// The names of the first `k` tags of a list (all of them when it is
/// shorter).
pub open spec fn first_tag_names(s: Seq<(Seq<char>, u32)>, k: int) -> Seq<Seq<char>> {
    (if s.len() <= k {
        s
    } else {
        s.subrange(0, k)
    }).map_values(|p: (Seq<char>, u32)| p.0)
}

/// The prompt sent to the language model, character for character: a fixed
/// header; the detected BPM and key when present; up to three genres and
/// three moods; the energy level when present; the user's custom genre list
/// when non-empty; and a fixed instruction footer.
pub open spec fn spec_prompt(f: AudioFeatures, r: AIAnalysisResult, c: AIConfig) -> Seq<char> {
    let p =
        "You are a DJ assistant analyzing electronic music tracks. Based on the following audio characteristics, suggest 3-5 custom tags that a DJ would use for categorization.\n\n"@
        + "Audio Features:\n"@;
    let p = match f.bpm {
        Option::Some(bpm) => p + "- BPM: "@ + text::spec_fmt_tenths(bpm) + "\n"@,
        Option::None => p,
    };
    let p = match f.key {
        Option::Some(k) => p + "- Key: "@ + k@ + "\n"@,
        Option::None => p,
    };
    let p = if r.genres@.len() > 0 {
        p + "\nDetected Genres: "@ + text::spec_join(first_tag_names(tags_view(r.genres@), 3))
            + "\n"@
    } else {
        p
    };
    let p = if r.moods@.len() > 0 {
        p + "Detected Moods: "@ + text::spec_join(first_tag_names(tags_view(r.moods@), 3)) + "\n"@
    } else {
        p
    };
    let p = match r.energy_level {
        Option::Some(e) => p + "Energy Level: "@ + text::spec_fmt_units(e) + "/100\n"@,
        Option::None => p,
    };
    let p = if c.custom_tags.genres@.len() > 0 {
        p + "\nAvailable custom genres: "@ + text::spec_join(c.custom_tags.genres.deep_view())
            + "\n"@
    } else {
        p
    };
    p
        + "\nProvide 3-5 tags (comma-separated) that describe the vibe, context, or sub-genre. Focus on tags a DJ would use to find this track later (e.g., 'peak-time', 'warehouse-vibe', 'hypnotic', 'melodic-progressive').\n\n"@
        + "Tags: "@
}

/// The names of the first `limit` tags, cloned.
fn first_tags(tags: &Vec<TagWithConfidence>, limit: usize) -> (r: Vec<String>)
    ensures
        r.deep_view() == first_tag_names(tags_view(tags@), limit as int),
{
    let n = if tags.len() < limit {
        tags.len()
    } else {
        limit
    };
    let mut out: Vec<String> = Vec::new();
    let mut i: usize = 0;
    while i < n
        invariant
            i <= n,
            n == if tags@.len() < limit {
                tags@.len() as int
            } else {
                limit as int
            },
            n <= tags@.len(),
            out@.len() == i,
            forall|k: int| 0 <= k < i ==> (#[trigger] out@[k])@ == tags@[k].tag@,
        decreases n - i,
    {
        out.push(tags[i].tag.clone());
        i = i + 1;
    }
    proof {
        assert(out.deep_view() =~= first_tag_names(tags_view(tags@), limit as int));
    }
    out
}

/// Render the analysis prompt. The result is pinned character for character
/// by `spec_prompt`, so identical inputs always give identical prompts.
pub fn create_llm_prompt(
    features: &AudioFeatures,
    result: &AIAnalysisResult,
    config: &AIConfig,
) -> (r: String)
    ensures
        r@ == spec_prompt(*features, *result, *config),
{
    let mut prompt = String::from_str(
        "You are a DJ assistant analyzing electronic music tracks. Based on the following audio characteristics, suggest 3-5 custom tags that a DJ would use for categorization.\n\n",
    );
    prompt.append("Audio Features:\n");
    if let Some(bpm) = features.bpm {
        prompt.append("- BPM: ");
        prompt.append(text::fmt_tenths(bpm).as_str());
        prompt.append("\n");
    }
    if let Some(key) = &features.key {
        prompt.append("- Key: ");
        prompt.append(key.as_str());
        prompt.append("\n");
    }
    if result.genres.len() > 0 {
        prompt.append("\nDetected Genres: ");
        let names = first_tags(&result.genres, 3);
        prompt.append(text::join_strings(&names).as_str());
        prompt.append("\n");
    }
    if result.moods.len() > 0 {
        prompt.append("Detected Moods: ");
        let names = first_tags(&result.moods, 3);
        prompt.append(text::join_strings(&names).as_str());
        prompt.append("\n");
    }
    if let Some(energy) = result.energy_level {
        prompt.append("Energy Level: ");
        prompt.append(text::fmt_units(energy).as_str());
        prompt.append("/100\n");
    }
    if config.custom_tags.genres.len() > 0 {
        prompt.append("\nAvailable custom genres: ");
        prompt.append(text::join_strings(&config.custom_tags.genres).as_str());
        prompt.append("\n");
    }
    prompt.append(
        "\nProvide 3-5 tags (comma-separated) that describe the vibe, context, or sub-genre. Focus on tags a DJ would use to find this track later (e.g., 'peak-time', 'warehouse-vibe', 'hypnotic', 'melodic-progressive').\n\n",
    );
    prompt.append("Tags: ");
    prompt
}

/// The prompt is a function of the feature record, the partial result and
/// the configuration alone: two prompts built from equal inputs are
/// byte-identical.
pub proof fn lemma_prompt_deterministic(
    f1: AudioFeatures,
    r1: AIAnalysisResult,
    c1: AIConfig,
    f2: AudioFeatures,
    r2: AIAnalysisResult,
    c2: AIConfig,
    p1: Seq<char>,
    p2: Seq<char>,
)
    requires
        f1 == f2,
        r1 == r2,
        c1 == c2,
        p1 == spec_prompt(f1, r1, c1),
        p2 == spec_prompt(f2, r2, c2),
    ensures
        p1 == p2,
{
}

// ---------------------------------------------------------------------------
// Overall confidence
// ---------------------------------------------------------------------------

/// The sum of the confidences in a tag list.
pub open spec fn conf_sum(s: Seq<(Seq<char>, u32)>) -> int
    decreases s.len(),
{
    if s.len() == 0 {
        0
    } else {
        conf_sum(s.drop_last()) + s.last().1
    }
}

/// Every tag pair collected for the overall confidence, in order: genres,
/// then moods, then custom tags.
pub open spec fn all_scored_tags(r: AIAnalysisResult) -> Seq<(Seq<char>, u32)> {
    tags_view(r.genres@) + tags_view(r.moods@) + tags_view(r.custom_tags@)
}

/// The overall confidence of a result: the arithmetic mean of every tag
/// confidence (integer division), or the defined neutral value 0.5 when no
/// tag was produced at all.
pub open spec fn spec_overall_confidence(r: AIAnalysisResult) -> int {
    let all = all_scored_tags(r);
    if all.len() == 0 {
        5000
    } else {
        conf_sum(all) / all.len() as int
    }
}

/// Sums split over concatenation.
pub proof fn lemma_conf_sum_add(a: Seq<(Seq<char>, u32)>, b: Seq<(Seq<char>, u32)>)
    ensures
        conf_sum(a + b) == conf_sum(a) + conf_sum(b),
    decreases b.len(),
{
    if b.len() == 0 {
        assert(a + b =~= a);
    } else {
        lemma_conf_sum_add(a, b.drop_last());
        assert((a + b).drop_last() =~= a + b.drop_last());
        assert((a + b).last() == b.last());
    }
}

/// A sum of clamped confidences is at most the scale times the count.
pub proof fn lemma_conf_sum_bound(s: Seq<(Seq<char>, u32)>)
    requires
        forall|i: int| 0 <= i < s.len() ==> (#[trigger] s[i]).1 <= SCALE,
    ensures
        0 <= conf_sum(s) <= SCALE * s.len(),
    decreases s.len(),
{
    if s.len() > 0 {
        lemma_conf_sum_bound(s.drop_last());
        assert(s.last().1 <= SCALE);
    }
}

/// Sum the confidences of a tag list.
fn sum_confidences(v: &Vec<TagWithConfidence>) -> (r: u128)
    ensures
        r == conf_sum(tags_view(v@)),
        r <= v@.len() * 0x1_0000_0000,
{
    let ghost tv = tags_view(v@);
    let mut total: u128 = 0;
    let mut i: usize = 0;
    proof {
        assert(tv.subrange(0, 0) =~= Seq::<(Seq<char>, u32)>::empty());
    }
    while i < v.len()
        invariant
            i <= v@.len(),
            tv == tags_view(v@),
            tv.len() == v@.len(),
            total == conf_sum(tv.subrange(0, i as int)),
            total <= i * 0x1_0000_0000,
        decreases v@.len() - i,
    {
        let ghost pre = tv.subrange(0, i as int);
        proof {
            assert(tv[i as int] == (v@[i as int].tag@, v@[i as int].confidence));
            assert(pre.push(tv[i as int]).drop_last() =~= pre);
            assert(tv.subrange(0, i + 1) =~= pre.push(tv[i as int]));
            assert(conf_sum(pre.push(tv[i as int])) == conf_sum(pre) + v@[i as int].confidence);
        }
        total = total + v[i].confidence as u128;
        i = i + 1;
    }
    proof {
        assert(tv.subrange(0, tv.len() as int) =~= tv);
    }
    total
}

/// Compute the overall confidence of a result: the arithmetic mean of every
/// genre, mood and custom-tag confidence, or 0.5 when there are none.
pub fn calculate_overall_confidence(result: &AIAnalysisResult) -> (r: u32)
    requires
        tags_wf(result.genres@),
        tags_wf(result.moods@),
        tags_wf(result.custom_tags@),
    ensures
        r == spec_overall_confidence(*result),
        r <= SCALE,
        all_scored_tags(*result).len() == 0 ==> r == 5000,
{
    let ghost all = all_scored_tags(*result);
    let gs = sum_confidences(&result.genres);
    let ms = sum_confidences(&result.moods);
    let cs = sum_confidences(&result.custom_tags);
    let count: u128 = result.genres.len() as u128 + result.moods.len() as u128
        + result.custom_tags.len() as u128;
    proof {
        lemma_conf_sum_add(tags_view(result.genres@), tags_view(result.moods@));
        lemma_conf_sum_add(
            tags_view(result.genres@) + tags_view(result.moods@),
            tags_view(result.custom_tags@),
        );
        assert(all.len() == count);
    }
    if count == 0 {
        return 5000;
    }
    let total: u128 = gs + ms + cs;
    let mean: u128 = total / count;
    proof {
        assert(forall|i: int| 0 <= i < all.len() ==> (#[trigger] all[i]).1 <= SCALE) by {
            assert(forall|i: int| 0 <= i < result.genres@.len()
                ==> (#[trigger] tags_view(result.genres@)[i]).1
                == result.genres@[i].confidence);
            assert(forall|i: int| 0 <= i < result.moods@.len()
                ==> (#[trigger] tags_view(result.moods@)[i]).1 == result.moods@[i].confidence);
            assert(forall|i: int| 0 <= i < result.custom_tags@.len()
                ==> (#[trigger] tags_view(result.custom_tags@)[i]).1
                == result.custom_tags@[i].confidence);
        }
        lemma_conf_sum_bound(all);
        vstd::arithmetic::div_mod::lemma_div_is_ordered(
            conf_sum(all),
            SCALE * all.len() as int,
            all.len() as int,
        );
        vstd::arithmetic::div_mod::lemma_div_multiples_vanish(
            SCALE as int,
            all.len() as int,
        );
        assert(mean == conf_sum(all) / all.len() as int);
        assert(mean <= SCALE);
    }
    mean as u32
}

} // verus!
