//! Scenario tests for the pipeline's stated behaviour: clamping, BPM
//! gating, the energy formulas, prompt determinism, response parsing,
//! taxonomy mapping, confidence aggregation, and an end-to-end run.

use onetagger_ai::classifier::{EnergyAnalyzer, GenreClassifier};
use onetagger_ai::config::{AIConfig, APIConfig, APIProvider, CustomTagConfig};
use onetagger_ai::features::AudioFeatures;
use onetagger_ai::api::{build_request, response_outcome, AiError};
use onetagger_ai::tagger::AITagger;
use onetagger_ai::track::{AudioFileInfo, Track};
use onetagger_ai::quality::{IssueSeverity, QualityControl};
use onetagger_ai::{
    analyze_track, calculate_overall_confidence, create_llm_prompt, map_to_custom_tags,
    parse_llm_response, AIAnalysisResult, TagWithConfidence,
};

#[test]
fn confidence_is_clamped() {
    let tag = TagWithConfidence::new("loud".to_string(), 20000);
    assert_eq!(tag.confidence, 10000);
    let tag = TagWithConfidence::new("quiet".to_string(), 0);
    assert_eq!(tag.confidence, 0);
}

#[test]
fn no_bpm_suppresses_all_genre_rules() {
    let config = AIConfig::default();
    let classifier = GenreClassifier::new(&config);
    let mut features = AudioFeatures::default();
    features.bpm = None;
    features.spectral_centroid = 150000;
    features.rms_energy = 9000;
    features.onset_strength = 9000;
    let genres = classifier.classify(&features);
    assert!(genres.is_empty());
}

#[test]
fn energy_level_tracks_rms_extremes() {
    let config = AIConfig::default();
    let analyzer = EnergyAnalyzer::new(&config);
    let mut features = AudioFeatures::default();
    features.rms_energy = 10000;
    assert_eq!(analyzer.analyze(&features).energy_level, 10000);
    features.rms_energy = 0;
    assert_eq!(analyzer.analyze(&features).energy_level, 0);
}

#[test]
fn danceability_falls_back_without_bpm() {
    let config = AIConfig::default();
    let analyzer = EnergyAnalyzer::new(&config);
    let mut features = AudioFeatures::default();
    features.bpm = None;
    features.onset_strength = 9999;
    assert_eq!(analyzer.analyze(&features).danceability, 5000);
}

#[test]
fn prompt_is_deterministic() {
    let mut features = AudioFeatures::default();
    features.bpm = Some(12800);
    features.key = Some("F#m".to_string());
    let mut result = AIAnalysisResult::default();
    result.genres = vec![TagWithConfidence::new("techno".to_string(), 9000)];
    result.energy_level = Some(7200);
    let config = AIConfig::default();
    let first = create_llm_prompt(&features, &result, &config);
    let second = create_llm_prompt(&features, &result, &config);
    assert_eq!(first, second);
    assert!(first.contains("- BPM: 128.0\n"));
    assert!(first.contains("Energy Level: 72/100\n"));
}

#[test]
fn parser_normalizes_and_drops_long_segments() {
    let input = "Dark, Warehouse Vibe;peak-time\nsome very very very very very very very long filler text over fifty chars";
    let (description, tags) = parse_llm_response(input);
    assert_eq!(tags, vec!["dark".to_string(), "warehouse-vibe".to_string(), "peak-time".to_string()]);
    assert_eq!(description, "Dark, Warehouse Vibe;peak-time");
}

#[test]
fn parser_keeps_at_most_ten_tags() {
    let input = "a1,a2,a3,a4,a5,a6,a7,a8,a9,a10,a11,a12";
    let (_, tags) = parse_llm_response(input);
    assert_eq!(tags.len(), 10);
    assert_eq!(tags[0], "a1");
    assert_eq!(tags[9], "a10");
}

#[test]
fn parser_survives_empty_and_blank_input() {
    let (description, tags) = parse_llm_response("   \n  ");
    assert!(tags.is_empty());
    assert_eq!(description, "");
}

#[test]
fn taxonomy_match_is_case_insensitive() {
    let mut custom = CustomTagConfig::default();
    custom.genres = vec!["Techno".to_string()];
    custom.moods = Vec::new();
    custom.vibes = Vec::new();
    let mut result = AIAnalysisResult::default();
    result.genres = vec![TagWithConfidence::new("techno".to_string(), 8500)];
    let mapped = map_to_custom_tags(&result, &custom);
    assert_eq!(mapped.len(), 1);
    assert_eq!(mapped[0].tag, "techno");
    assert_eq!(mapped[0].confidence, 8500);
}

#[test]
fn suggestions_match_custom_collections_at_fixed_confidence() {
    let mut custom = CustomTagConfig::default();
    custom.custom_collections = vec![(
        "club".to_string(),
        vec!["Warehouse-Vibe".to_string()],
    )];
    let mut result = AIAnalysisResult::default();
    result.llm_suggestions = vec!["warehouse-vibe".to_string(), "unlisted".to_string()];
    let mapped = map_to_custom_tags(&result, &custom);
    assert_eq!(mapped.len(), 1);
    assert_eq!(mapped[0].tag, "warehouse-vibe");
    assert_eq!(mapped[0].confidence, 8000);
}

#[test]
fn overall_confidence_defaults_and_single_tag() {
    let result = AIAnalysisResult::default();
    assert_eq!(calculate_overall_confidence(&result), 5000);
    let mut result = AIAnalysisResult::default();
    result.genres = vec![TagWithConfidence::new("techno".to_string(), 9000)];
    assert_eq!(calculate_overall_confidence(&result), 9000);
}

#[test]
fn overall_confidence_is_the_truncated_mean() {
    let mut result = AIAnalysisResult::default();
    result.genres = vec![TagWithConfidence::new("techno".to_string(), 8500)];
    result.moods = vec![TagWithConfidence::new("dark".to_string(), 8000)];
    assert_eq!(calculate_overall_confidence(&result), 8250);
}

#[test]
fn gemini_request_is_assembled_exactly() {
    let mut config = APIConfig::default();
    config.api_key = Some("KEY".to_string());
    let request = build_request(&config, "say \"hi\"").expect("request");
    assert_eq!(
        request.url,
        format!("{}?key=KEY", APIProvider::Gemini.default_endpoint())
    );
    assert!(request.bearer_token.is_none());
    assert_eq!(
        request.body,
        "{\"contents\":[{\"parts\":[{\"text\":\"say \\\"hi\\\"\"}]}],\"generationConfig\":{\"maxOutputTokens\":256,\"temperature\":0.7}}"
    );
}

#[test]
fn chat_request_carries_bearer_token_and_model() {
    let mut config = APIConfig::default();
    config.provider = APIProvider::Groq;
    config.api_key = Some("KEY".to_string());
    let request = build_request(&config, "hello").expect("request");
    assert_eq!(request.url, APIProvider::Groq.default_endpoint());
    assert_eq!(request.bearer_token.as_deref(), Some("KEY"));
    assert_eq!(
        request.body,
        "{\"max_tokens\":256,\"messages\":[{\"content\":\"hello\",\"role\":\"user\"}],\"model\":\"llama-3.2-3b-preview\",\"temperature\":0.7}"
    );
}

#[test]
fn missing_key_and_endpoint_fail_fast() {
    let config = APIConfig::default();
    match build_request(&config, "hello") {
        Err(AiError::MissingApiKey(message)) => {
            assert!(message.contains("Gemini API key not set"))
        }
        _ => panic!("expected a missing-key error"),
    }
    let mut config = APIConfig::default();
    config.provider = APIProvider::Custom;
    match build_request(&config, "hello") {
        Err(AiError::MissingEndpoint(message)) => {
            assert_eq!(message, "Custom endpoint not configured")
        }
        _ => panic!("expected a missing-endpoint error"),
    }
    let mut config = APIConfig::default();
    config.provider = APIProvider::OpenAI;
    match build_request(&config, "hello") {
        Err(AiError::MissingApiKey(message)) => assert_eq!(message, "API key not set"),
        _ => panic!("expected a missing-key error"),
    }
}

#[test]
fn response_outcomes_cover_status_and_emptiness() {
    match response_outcome(&APIProvider::Gemini, 500, "quota exceeded", None) {
        Err(AiError::ProviderError(message)) => {
            assert_eq!(message, "Gemini API error: quota exceeded")
        }
        _ => panic!("expected a provider error"),
    }
    match response_outcome(&APIProvider::Groq, 200, "", None) {
        Err(AiError::NoResponse(message)) => assert_eq!(message, "No response from API"),
        _ => panic!("expected an empty-response error"),
    }
    match response_outcome(&APIProvider::Gemini, 200, "", Some("tags".to_string())) {
        Ok(text) => assert_eq!(text, "tags"),
        _ => panic!("expected the generated text"),
    }
}

#[test]
fn default_thread_count_is_positive() {
    let config = AIConfig::default();
    assert!(config.max_threads >= 1);
}

#[test]
fn end_to_end_rule_based_run() {
    let mut features = AudioFeatures::default();
    features.bpm = Some(12800);
    features.spectral_centroid = 150000;
    features.rms_energy = 8000;
    let config = AIConfig::default();

    // No API key is configured, so the text-generation step is skipped.
    let result = analyze_track(&features, &config, None);

    let genre_names: Vec<&str> = result.genres.iter().map(|g| g.tag.as_str()).collect();
    assert!(genre_names.contains(&"techno"));
    assert!(genre_names.contains(&"peak-time-techno"));
    assert!(!result.moods.is_empty());
    assert!(result.energy_level.is_some());
    assert!(result.danceability.is_some());
    assert!(result.aggression.is_some());
    assert!(result.llm_suggestions.is_empty());
    assert!(result.description.is_none());
    // The default taxonomy names Techno and House, so custom tags follow.
    assert!(result.custom_tags.iter().any(|t| t.tag == "techno"));
    assert!(result.confidence > 0);
}

#[test]
fn validation_reports_issues_and_scores() {
    let qc = QualityControl::new(6000);
    let mut track = Track::default();
    track.bpm = Some(140);
    let mut features = AudioFeatures::default();
    features.bpm = Some(12800);
    let report = qc.validate(&track, &features);
    assert_eq!(report.issues.len(), 3);
    assert_eq!(report.issues[0].severity, IssueSeverity::Warning);
    assert_eq!(report.issues[0].field, "BPM");
    assert_eq!(
        report.issues[0].message,
        "Tagged BPM (140) differs from detected (128.0)"
    );
    assert_eq!(report.issues[1].field, "Genre");
    assert_eq!(report.issues[2].field, "Artist");
    assert_eq!(
        report.suggestions,
        vec!["Consider updating BPM to 128.0".to_string()]
    );
    // Only the BPM field is filled: one point of nine.
    assert_eq!(report.completeness, 1111);
    // Three issues cost three tenths of the consistency score.
    assert_eq!(report.quality_score, (1111 + 7000) / 2);
}

#[test]
fn match_track_carries_scores_into_frames() {
    let mut features = AudioFeatures::default();
    features.bpm = Some(12800);
    features.spectral_centroid = 150000;
    features.rms_energy = 8000;
    let config = AIConfig::default();
    let analysis = analyze_track(&features, &config, None);

    let mut info = AudioFileInfo::new("/music/track.flac".to_string());
    info.title = Some("Test Track".to_string());
    let tagger = AITagger::new_with_config(config);
    let matches = tagger.match_track(&info, &analysis);
    assert_eq!(matches.len(), 1);
    let track = &matches[0].track;
    assert_eq!(track.platform, "ai");
    assert_eq!(track.title, "Test Track");
    assert_eq!(track.artists, vec!["Unknown".to_string()]);
    assert_eq!(track.bpm, Some(128));
    assert!(track.genres.contains(&"techno".to_string()));
    assert!(track
        .other
        .iter()
        .any(|(name, values)| name == "AI_ENERGY" && values == &vec!["80".to_string()]));
}
