//! Configuration: feature toggles, thresholds, the user's custom tag
//! taxonomy, and the text-generation provider settings.
//!
//! Thresholds in the unit interval are fixed-point ten-thousandths; BPM
//! differences are hundredths of a BPM.

use vstd::prelude::*;
use vstd::string::StringExecFns;

verus! {

/// Main configuration for an analysis run; read-only while a run is active.
#[derive(Debug, Clone)]
pub struct AIConfig {
    /// Enable the analysis features globally.
    pub enabled: bool,
    /// The user's custom tag taxonomy.
    pub custom_tags: CustomTagConfig,
    /// Provider settings for the text-generation step.
    pub api_config: APIConfig,
    pub enable_genre_classification: bool,
    pub enable_mood_detection: bool,
    pub enable_energy_analysis: bool,
    pub enable_duplicate_detection: bool,
    pub enable_quality_control: bool,
    pub enable_smart_playlists: bool,
    /// Minimum confidence for a candidate tag (ten-thousandths of 1.0).
    pub confidence_threshold: u32,
    /// Similarity threshold for duplicate detection (ten-thousandths).
    pub duplicate_threshold: u32,
    /// Strictness of quality control (ten-thousandths).
    pub quality_strictness: u32,
    pub multi_label_classification: bool,
    pub max_tags_per_track: usize,
    pub prefer_ai_over_platform: bool,
    pub batch_size: usize,
    pub max_threads: usize,
    /// Directory for cached provider responses, when one is configured.
    pub cache_dir: Option<String>,
}

/// Relies on `num_cpus::get`: the number of logical CPUs of the running
/// system, which its documentation promises is at least 1.
#[verifier::external_body]
fn available_cpus() -> (r: usize)
    ensures
        r >= 1,
{
    num_cpus::get()
}

impl Default for AIConfig {
    /// The default run configuration: classifiers on, threshold 0.7.
    fn default() -> (r: Self)
        ensures
            r.enabled,
            r.custom_tags.genres.deep_view() == spec_default_genres(),
            r.custom_tags.moods.deep_view() == spec_default_moods(),
            r.custom_tags.vibes.deep_view() == spec_default_vibes(),
            r.custom_tags.custom_collections@.len() == 0,
            r.api_config.provider == APIProvider::Gemini,
            r.api_config.api_key is None,
            r.api_config.endpoint is None,
            r.enable_genre_classification,
            r.enable_mood_detection,
            r.enable_energy_analysis,
            !r.enable_duplicate_detection,
            r.enable_quality_control,
            !r.enable_smart_playlists,
            r.confidence_threshold == 7000,
            r.duplicate_threshold == 8500,
            r.quality_strictness == 6000,
            r.multi_label_classification,
            r.max_tags_per_track == 5,
            !r.prefer_ai_over_platform,
            r.batch_size == 32,
            r.max_threads >= 1,
            r.cache_dir is None,
    {
        AIConfig {
            enabled: true,
            custom_tags: CustomTagConfig::default(),
            api_config: APIConfig::default(),
            enable_genre_classification: true,
            enable_mood_detection: true,
            enable_energy_analysis: true,
            enable_duplicate_detection: false,
            enable_quality_control: true,
            enable_smart_playlists: false,
            confidence_threshold: 7000,
            duplicate_threshold: 8500,
            quality_strictness: 6000,
            multi_label_classification: true,
            max_tags_per_track: 5,
            prefer_ai_over_platform: false,
            batch_size: 32,
            max_threads: available_cpus(),
            cache_dir: None,
        }
    }
}

/// Custom tag collections defined by the user.
#[derive(Debug, Clone)]
pub struct CustomTagConfig {
    /// Custom genre taxonomy.
    pub genres: Vec<String>,
    /// Custom mood tags.
    pub moods: Vec<String>,
    /// Custom vibe tags.
    pub vibes: Vec<String>,
    /// Additional named collections, in insertion order.
    pub custom_collections: Vec<(String, Vec<String>)>,
}

/// The default custom genre list.
pub open spec fn spec_default_genres() -> Seq<Seq<char>> {
    seq![
        "Ambient"@,
        "Acid"@,
        "Breaks"@,
        "Classic"@,
        "Deep"@,
        "deep-techno"@,
        "Drum & Bass"@,
        "Dub"@,
        "Electro"@,
        "Funky"@,
        "House"@,
        "Jackin"@,
        "Jazzy"@,
        "Minimal"@,
        "Progressive"@,
        "Techouse"@,
        "Techno"@,
        "Tribal"@,
    ]
}

/// The default custom mood list.
pub open spec fn spec_default_moods() -> Seq<Seq<char>> {
    seq![
        "Trippy"@,
        "Battle"@,
        "Beautiful"@,
        "Oldek"@,
        "Proper"@,
        "Upper"@,
        "Dark"@,
        "Schizo"@,
        "Nasty"@,
        "Cosmic"@,
        "Raw"@,
    ]
}

/// The default vibe list.
pub open spec fn spec_default_vibes() -> Seq<Seq<char>> {
    seq![
        "Intro"@,
        "Warmup"@,
        "Peak"@,
        "Filler"@,
        "After"@,
        "Outro"@,
        "Morning"@,
        "Daytime"@,
        "Tool"@,
    ]
}

impl Default for CustomTagConfig {
    /// The default taxonomy that ships with the library.
    fn default() -> (r: Self)
        ensures
            r.genres.deep_view() == spec_default_genres(),
            r.moods.deep_view() == spec_default_moods(),
            r.vibes.deep_view() == spec_default_vibes(),
            r.custom_collections@.len() == 0,
    {
        let mut genres: Vec<String> = Vec::new();
        genres.push(String::from_str("Ambient"));
        genres.push(String::from_str("Acid"));
        genres.push(String::from_str("Breaks"));
        genres.push(String::from_str("Classic"));
        genres.push(String::from_str("Deep"));
        genres.push(String::from_str("deep-techno"));
        genres.push(String::from_str("Drum & Bass"));
        genres.push(String::from_str("Dub"));
        genres.push(String::from_str("Electro"));
        genres.push(String::from_str("Funky"));
        genres.push(String::from_str("House"));
        genres.push(String::from_str("Jackin"));
        genres.push(String::from_str("Jazzy"));
        genres.push(String::from_str("Minimal"));
        genres.push(String::from_str("Progressive"));
        genres.push(String::from_str("Techouse"));
        genres.push(String::from_str("Techno"));
        genres.push(String::from_str("Tribal"));
        let mut moods: Vec<String> = Vec::new();
        moods.push(String::from_str("Trippy"));
        moods.push(String::from_str("Battle"));
        moods.push(String::from_str("Beautiful"));
        moods.push(String::from_str("Oldek"));
        moods.push(String::from_str("Proper"));
        moods.push(String::from_str("Upper"));
        moods.push(String::from_str("Dark"));
        moods.push(String::from_str("Schizo"));
        moods.push(String::from_str("Nasty"));
        moods.push(String::from_str("Cosmic"));
        moods.push(String::from_str("Raw"));
        let mut vibes: Vec<String> = Vec::new();
        vibes.push(String::from_str("Intro"));
        vibes.push(String::from_str("Warmup"));
        vibes.push(String::from_str("Peak"));
        vibes.push(String::from_str("Filler"));
        vibes.push(String::from_str("After"));
        vibes.push(String::from_str("Outro"));
        vibes.push(String::from_str("Morning"));
        vibes.push(String::from_str("Daytime"));
        vibes.push(String::from_str("Tool"));
        proof {
            assert(genres.deep_view() =~= spec_default_genres());
            assert(moods.deep_view() =~= spec_default_moods());
            assert(vibes.deep_view() =~= spec_default_vibes());
        }
        CustomTagConfig { genres, moods, vibes, custom_collections: Vec::new() }
    }
}

/// Provider settings for the text-generation step.
#[derive(Debug, Clone)]
pub struct APIConfig {
    /// Which provider to use.
    pub provider: APIProvider,
    /// API key, when one is configured.
    pub api_key: Option<String>,
    /// Optional custom endpoint.
    pub endpoint: Option<String>,
    /// Enable caching of provider responses (advisory; not enforced here).
    pub enable_cache: bool,
    /// Cache TTL in seconds.
    pub cache_ttl: u64,
    /// Rate limit in requests per minute (advisory; not enforced here).
    pub rate_limit: u32,
}

impl Default for APIConfig {
    /// The default provider settings.
    fn default() -> (r: Self)
        ensures
            r.provider == APIProvider::Gemini,
            r.api_key is None,
            r.endpoint is None,
            r.enable_cache,
            r.cache_ttl == 604800,
            r.rate_limit == 15,
    {
        APIConfig {
            provider: APIProvider::Gemini,
            api_key: None,
            endpoint: None,
            enable_cache: true,
            cache_ttl: 7 * 24 * 60 * 60,
            rate_limit: 15,
        }
    }
}

/// The available text-generation providers.
#[derive(Debug, Clone, Copy, PartialEq, Eq, Structural)]
pub enum APIProvider {
    Gemini,
    OpenRouter,
    Groq,
    TogetherAI,
    OpenAI,
    Custom,
}

/// The default endpoint of each provider; empty for `Custom`.
pub open spec fn spec_default_endpoint(p: APIProvider) -> Seq<char> {
    match p {
        APIProvider::Gemini => "https://generativelanguage.googleapis.com/v1beta/models/gemini-2.0-flash-exp:generateContent"@,
        APIProvider::OpenRouter => "https://openrouter.ai/api/v1/chat/completions"@,
        APIProvider::Groq => "https://api.groq.com/openai/v1/chat/completions"@,
        APIProvider::TogetherAI => "https://api.together.xyz/v1/chat/completions"@,
        APIProvider::OpenAI => "https://api.openai.com/v1/chat/completions"@,
        APIProvider::Custom => ""@,
    }
}

/// The display name of each provider.
pub open spec fn spec_display_name(p: APIProvider) -> Seq<char> {
    match p {
        APIProvider::Gemini => "Google Gemini 2.0 Flash (FREE)"@,
        APIProvider::OpenRouter => "OpenRouter (Multiple Models, FREE)"@,
        APIProvider::Groq => "Groq (Ultra-Fast, FREE)"@,
        APIProvider::TogetherAI => "Together AI (FREE Credits)"@,
        APIProvider::OpenAI => "OpenAI (Paid)"@,
        APIProvider::Custom => "Custom Endpoint"@,
    }
}

/// The free-tier description of each provider.
pub open spec fn spec_free_tier_info(p: APIProvider) -> Seq<char> {
    match p {
        APIProvider::Gemini => "15 RPM, 1M tokens/day, completely free"@,
        APIProvider::OpenRouter => "20 RPM, free tier available"@,
        APIProvider::Groq => "30 RPM, 14,400/day, free"@,
        APIProvider::TogetherAI => "$25 free credits/month"@,
        APIProvider::OpenAI => "Requires paid API key"@,
        APIProvider::Custom => "Depends on provider"@,
    }
}

impl APIProvider {
    /// The default endpoint used when no override is configured.
    pub fn default_endpoint(&self) -> (r: &'static str)
        ensures
            r@ == spec_default_endpoint(*self),
    {
        match self {
            APIProvider::Gemini => "https://generativelanguage.googleapis.com/v1beta/models/gemini-2.0-flash-exp:generateContent",
            APIProvider::OpenRouter => "https://openrouter.ai/api/v1/chat/completions",
            APIProvider::Groq => "https://api.groq.com/openai/v1/chat/completions",
            APIProvider::TogetherAI => "https://api.together.xyz/v1/chat/completions",
            APIProvider::OpenAI => "https://api.openai.com/v1/chat/completions",
            APIProvider::Custom => "",
        }
    }

    /// A human-readable provider name.
    pub fn display_name(&self) -> (r: &'static str)
        ensures
            r@ == spec_display_name(*self),
    {
        match self {
            APIProvider::Gemini => "Google Gemini 2.0 Flash (FREE)",
            APIProvider::OpenRouter => "OpenRouter (Multiple Models, FREE)",
            APIProvider::Groq => "Groq (Ultra-Fast, FREE)",
            APIProvider::TogetherAI => "Together AI (FREE Credits)",
            APIProvider::OpenAI => "OpenAI (Paid)",
            APIProvider::Custom => "Custom Endpoint",
        }
    }

    /// The free-tier limits of the provider.
    pub fn free_tier_info(&self) -> (r: &'static str)
        ensures
            r@ == spec_free_tier_info(*self),
    {
        match self {
            APIProvider::Gemini => "15 RPM, 1M tokens/day, completely free",
            APIProvider::OpenRouter => "20 RPM, free tier available",
            APIProvider::Groq => "30 RPM, 14,400/day, free",
            APIProvider::TogetherAI => "$25 free credits/month",
            APIProvider::OpenAI => "Requires paid API key",
            APIProvider::Custom => "Depends on provider",
        }
    }

    /// Whether this provider is the recommended default.
    pub fn is_recommended(&self) -> (r: bool)
        ensures
            r == (*self is Gemini),
    {
        matches!(self, APIProvider::Gemini)
    }

    /// Whether the provider needs an API key configured.
    pub fn requires_api_key(&self) -> (r: bool)
        ensures
            r == !(*self is Custom),
    {
        !matches!(self, APIProvider::Custom)
    }
}

/// Model settings for the text-generation request.
#[derive(Debug, Clone)]
pub struct ModelConfig {
    /// Specific model name, when overridden.
    pub model_name: Option<String>,
    /// Sampling temperature (ten-thousandths of 1.0).
    pub temperature: u32,
    /// Maximum tokens in the response.
    pub max_tokens: u32,
}

impl Default for ModelConfig {
    /// The default model settings.
    fn default() -> (r: Self)
        ensures
            r.model_name is None,
            r.temperature == 7000,
            r.max_tokens == 256,
    {
        ModelConfig { model_name: None, temperature: 7000, max_tokens: 256 }
    }
}

/// Settings for playlist generation.
#[derive(Debug, Clone)]
pub struct PlaylistConfig {
    /// Desired playlist duration in minutes.
    pub duration_minutes: usize,
    /// Starting mood.
    pub start_mood: String,
    /// Peak mood.
    pub peak_mood: String,
    /// Ending mood.
    pub end_mood: String,
    /// Enable harmonic mixing.
    pub harmonic_mixing: bool,
    /// Shape of the energy progression.
    pub energy_curve: EnergyCurve,
    /// Genre consistency (ten-thousandths of 1.0).
    pub genre_consistency: u32,
    /// Allow BPM changes between neighbours.
    pub allow_bpm_changes: bool,
    /// Maximum BPM difference between neighbours (hundredths of a BPM).
    pub max_bpm_difference: u32,
}

impl Default for PlaylistConfig {
    /// The default playlist settings.
    fn default() -> (r: Self)
        ensures
            r.duration_minutes == 60,
            r.start_mood@ == "warm-up"@,
            r.peak_mood@ == "peak-time"@,
            r.end_mood@ == "cool-down"@,
            r.harmonic_mixing,
            r.energy_curve == EnergyCurve::GradualBuild,
            r.genre_consistency == 7000,
            r.allow_bpm_changes,
            r.max_bpm_difference == 1000,
    {
        PlaylistConfig {
            duration_minutes: 60,
            start_mood: String::from_str("warm-up"),
            peak_mood: String::from_str("peak-time"),
            end_mood: String::from_str("cool-down"),
            harmonic_mixing: true,
            energy_curve: EnergyCurve::GradualBuild,
            genre_consistency: 7000,
            allow_bpm_changes: true,
            max_bpm_difference: 1000,
        }
    }
}

/// Energy curve shapes for playlist generation.
#[derive(Debug, Clone, Copy, PartialEq, Eq, Structural)]
pub enum EnergyCurve {
    /// Gradually build energy.
    GradualBuild,
    /// Quick rise to the peak, then maintain.
    QuickPeak,
    /// Constant energy throughout.
    Constant,
    /// Up and down waves.
    Wave,
    /// A user-defined curve.
    Custom,
}

} // verus!
