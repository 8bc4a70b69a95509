//! Tests for configuration defaults, provider metadata, classification and
//! the tagger shell.

use onetagger_ai::classifier::{EnergyAnalyzer, GenreClassifier, MoodDetector};
use onetagger_ai::config::{AIConfig, APIConfig, APIProvider, CustomTagConfig, PlaylistConfig};
use onetagger_ai::features::{AudioFeatures, FeatureExtractor};
use onetagger_ai::playlist::PlaylistGenerator;
use onetagger_ai::quality::QualityControl;
use onetagger_ai::duplicates::DuplicateDetector;
use onetagger_ai::tagger::AITagger;
use onetagger_ai::{
    create_llm_prompt, get_api_key_url, AIAnalysisResult, TagWithConfidence,
};

#[test]
fn test_api_client_creation() {
    let config = APIConfig::default();
    // A client cannot be exercised without an API key.
    let _ = config;
}

#[test]
fn test_endpoints() {
    assert!(APIProvider::Gemini.default_endpoint().contains("googleapis.com"));
    assert!(APIProvider::Groq.default_endpoint().contains("groq.com"));
}

#[test]
fn test_genre_classification() {
    let config = AIConfig::default();
    let classifier = GenreClassifier::new(&config);

    let mut features = AudioFeatures::default();
    features.bpm = Some(12800);
    features.spectral_centroid = 150000;
    features.rms_energy = 8000;

    let genres = classifier.classify(&features);
    assert!(!genres.is_empty());
}

#[test]
fn test_mood_detection() {
    let config = AIConfig::default();
    let detector = MoodDetector::new(&config);

    let mut features = AudioFeatures::default();
    features.key = Some("Am".to_string());
    features.rms_energy = 8000;

    let moods = detector.detect(&features);
    assert!(!moods.is_empty());
}

#[test]
fn test_default_config() {
    let config = AIConfig::default();
    assert!(config.enabled);
    assert_eq!(config.confidence_threshold, 7000);
    assert!(config.enable_genre_classification);
}

#[test]
fn test_api_providers() {
    let gemini = APIProvider::Gemini;
    assert!(gemini.is_recommended());
    assert!(gemini.requires_api_key());
    assert!(gemini.default_endpoint().contains("googleapis.com"));
    assert_eq!(gemini.display_name(), "Google Gemini 2.0 Flash (FREE)");
}

#[test]
fn test_custom_tags() {
    let custom = CustomTagConfig::default();
    assert!(!custom.genres.is_empty());
    assert!(!custom.moods.is_empty());
    assert!(custom.genres.contains(&"deep-techno".to_string()));
}

#[test]
fn test_duplicate_detector() {
    let detector = DuplicateDetector::new(8500);
    assert_eq!(detector.threshold, 8500);
}

#[test]
fn test_feature_extractor_creation() {
    let extractor = FeatureExtractor::new();
    assert_eq!(extractor.sample_rate, 44100);
}

#[test]
fn test_default_features() {
    let features = AudioFeatures::default();
    assert_eq!(features.mfccs.len(), 13);
    assert_eq!(features.chroma.len(), 12);
}

#[test]
fn test_tag_with_confidence() {
    let tag = TagWithConfidence::new("techno".to_string(), 9500);
    assert_eq!(tag.tag, "techno");
    assert_eq!(tag.confidence, 9500);
}

#[test]
fn test_llm_prompt_generation() {
    let mut features = AudioFeatures::default();
    features.bpm = Some(12800);
    features.key = Some("Am".to_string());

    let mut result = AIAnalysisResult::default();
    result.genres = vec![TagWithConfidence::new("techno".to_string(), 9000)];
    result.moods = vec![TagWithConfidence::new("dark".to_string(), 8500)];
    result.energy_level = Some(8500);

    let config = AIConfig::default();
    let prompt = create_llm_prompt(&features, &result, &config);

    assert!(prompt.contains("128"));
    assert!(prompt.contains("Am"));
    assert!(prompt.contains("techno"));
}

#[test]
fn test_api_key_urls() {
    assert!(get_api_key_url(&APIProvider::Gemini).contains("aistudio.google.com"));
    assert!(get_api_key_url(&APIProvider::Groq).contains("groq.com"));
}

#[test]
fn test_playlist_generator() {
    let config = PlaylistConfig::default();
    let generator = PlaylistGenerator::new(config);
    let playlist = generator.generate(&Vec::new());
    assert_eq!(playlist.name, "AI Generated Playlist");
}

#[test]
fn test_quality_control() {
    let qc = QualityControl::new(7000);
    assert_eq!(qc.strictness, 7000);
}

#[test]
fn test_ai_tagger_info() {
    let info = AITagger::get_info();
    assert_eq!(info.id, "ai");
    assert!(info.name.contains("AI"));
    assert!(info.requires_auth);
}

#[test]
fn test_custom_options() {
    let options = AITagger::custom_options();
    assert!(!options.options.is_empty());
    assert!(options.options.iter().any(|o| o.id == "apiKey"));
}

#[test]
fn test_energy_analysis_profile() {
    let config = AIConfig::default();
    let analyzer = EnergyAnalyzer::new(&config);
    let mut features = AudioFeatures::default();
    features.bpm = Some(12800);
    features.onset_strength = 6000;
    features.spectral_flux = 5000;
    features.zero_crossing_rate = 3000;
    features.rms_energy = 7000;
    let energy = analyzer.analyze(&features);
    assert_eq!(energy.energy_level, 7000);
    assert_eq!(energy.danceability, 7500);
    assert_eq!(energy.aggression, 4000);
}
