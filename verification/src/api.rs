//! The text-generation request/response boundary: request assembly for each
//! provider (URL, auth and JSON body), and the decision on what a response
//! means. The network transfer itself is the caller's concern; everything
//! here is a pure function of configuration and text.

use vstd::prelude::*;
use vstd::string::StrSliceExecFns;
use vstd::string::StringExecFns;
use crate::config::{APIConfig, APIProvider, spec_default_endpoint};

verus! {

// ---------------------------------------------------------------------------
// Errors
// ---------------------------------------------------------------------------

/// Why the text-generation step failed. Every variant carries its
/// human-readable message; all failures are recoverable by the caller.
#[derive(Debug, Clone)]
pub enum AiError {
    /// No API key is configured for a provider that needs one.
    MissingApiKey(String),
    /// The custom provider has no endpoint configured.
    MissingEndpoint(String),
    /// The provider answered with a non-success status; the message carries
    /// the response body.
    ProviderError(String),
    /// The provider answered without any generated text.
    NoResponse(String),
}

/// The message text carried by an error.
pub open spec fn spec_message(e: AiError) -> Seq<char> {
    match e {
        AiError::MissingApiKey(m) => m@,
        AiError::MissingEndpoint(m) => m@,
        AiError::ProviderError(m) => m@,
        AiError::NoResponse(m) => m@,
    }
}

impl AiError {
    /// The human-readable message of this error.
    pub fn message(&self) -> (r: String)
        ensures
            r@ == spec_message(*self),
    {
        match self {
            AiError::MissingApiKey(m) => m.clone(),
            AiError::MissingEndpoint(m) => m.clone(),
            AiError::ProviderError(m) => m.clone(),
            AiError::NoResponse(m) => m.clone(),
        }
    }
}

// ---------------------------------------------------------------------------
// JSON string escaping
// ---------------------------------------------------------------------------

/// The lower-case hex digit for `d` (0 to 15).
pub open spec fn hex_digit(d: nat) -> char {
    if d == 0 { '0' }
    else if d == 1 { '1' }
    else if d == 2 { '2' }
    else if d == 3 { '3' }
    else if d == 4 { '4' }
    else if d == 5 { '5' }
    else if d == 6 { '6' }
    else if d == 7 { '7' }
    else if d == 8 { '8' }
    else if d == 9 { '9' }
    else if d == 10 { 'a' }
    else if d == 11 { 'b' }
    else if d == 12 { 'c' }
    else if d == 13 { 'd' }
    else if d == 14 { 'e' }
    else { 'f' }
}

/// How one character appears inside a JSON string literal: quote and
/// backslash get a backslash escape, the named control characters get their
/// short escapes, other control characters a `\u00..` escape, and everything
/// else stands as itself.
pub open spec fn json_escape_char(c: char) -> Seq<char> {
    let u = c as u32;
    if c == '"' {
        seq!['\\', '"']
    } else if c == '\\' {
        seq!['\\', '\\']
    } else if u == 8 {
        seq!['\\', 'b']
    } else if u == 9 {
        seq!['\\', 't']
    } else if u == 10 {
        seq!['\\', 'n']
    } else if u == 12 {
        seq!['\\', 'f']
    } else if u == 13 {
        seq!['\\', 'r']
    } else if u < 32 {
        seq!['\\', 'u', '0', '0', hex_digit((u / 16) as nat), hex_digit((u % 16) as nat)]
    } else {
        seq![c]
    }
}

/// A character sequence escaped for inclusion in a JSON string literal.
pub open spec fn json_escaped(s: Seq<char>) -> Seq<char>
    decreases s.len(),
{
    if s.len() == 0 {
        Seq::<char>::empty()
    } else {
        json_escaped(s.drop_last()) + json_escape_char(s.last())
    }
}

/// A one-character string slice for the hex digit `d`.
fn hex_digit_str(d: u32) -> (r: &'static str)
    requires
        d < 16,
    ensures
        r@ =~= seq![hex_digit(d as nat)],
{
    proof {
        reveal_strlit("0");
        reveal_strlit("1");
        reveal_strlit("2");
        reveal_strlit("3");
        reveal_strlit("4");
        reveal_strlit("5");
        reveal_strlit("6");
        reveal_strlit("7");
        reveal_strlit("8");
        reveal_strlit("9");
        reveal_strlit("a");
        reveal_strlit("b");
        reveal_strlit("c");
        reveal_strlit("d");
        reveal_strlit("e");
        reveal_strlit("f");
    }
    if d == 0 { "0" }
    else if d == 1 { "1" }
    else if d == 2 { "2" }
    else if d == 3 { "3" }
    else if d == 4 { "4" }
    else if d == 5 { "5" }
    else if d == 6 { "6" }
    else if d == 7 { "7" }
    else if d == 8 { "8" }
    else if d == 9 { "9" }
    else if d == 10 { "a" }
    else if d == 11 { "b" }
    else if d == 12 { "c" }
    else if d == 13 { "d" }
    else if d == 14 { "e" }
    else { "f" }
}

/// Escape a string for inclusion in a JSON string literal.
pub fn escape_json(s: &str) -> (r: String)
    ensures
        r@ == json_escaped(s@),
{
    let n = s.unicode_len();
    let mut out = String::new();
    let mut i: usize = 0;
    while i < n
        invariant
            n == s@.len(),
            i <= n,
            out@ == json_escaped(s@.subrange(0, i as int)),
        decreases n - i,
    {
        let ghost out0 = out@;
        let ghost cc = s@[i as int];
        let c = s.get_char(i);
        let u = c as u32;
        if c == '"' {
            out.append("\\\"");
            proof {
                reveal_strlit("\\\"");
                assert(("\\\"")@ =~= seq!['\\', '"']);
                assert(out@ =~= out0 + json_escape_char(cc));
            }
        } else if c == '\\' {
            out.append("\\\\");
            proof {
                reveal_strlit("\\\\");
                assert(("\\\\")@ =~= seq!['\\', '\\']);
                assert(out@ =~= out0 + json_escape_char(cc));
            }
        } else if u == 8 {
            out.append("\\b");
            proof {
                reveal_strlit("\\b");
                assert(("\\b")@ =~= seq!['\\', 'b']);
                assert(out@ =~= out0 + json_escape_char(cc));
            }
        } else if u == 9 {
            out.append("\\t");
            proof {
                reveal_strlit("\\t");
                assert(("\\t")@ =~= seq!['\\', 't']);
                assert(out@ =~= out0 + json_escape_char(cc));
            }
        } else if u == 10 {
            out.append("\\n");
            proof {
                reveal_strlit("\\n");
                assert(("\\n")@ =~= seq!['\\', 'n']);
                assert(out@ =~= out0 + json_escape_char(cc));
            }
        } else if u == 12 {
            out.append("\\f");
            proof {
                reveal_strlit("\\f");
                assert(("\\f")@ =~= seq!['\\', 'f']);
                assert(out@ =~= out0 + json_escape_char(cc));
            }
        } else if u == 13 {
            out.append("\\r");
            proof {
                reveal_strlit("\\r");
                assert(("\\r")@ =~= seq!['\\', 'r']);
                assert(out@ =~= out0 + json_escape_char(cc));
            }
        } else if u < 32 {
            out.append("\\u00");
            out.append(hex_digit_str(u / 16));
            out.append(hex_digit_str(u % 16));
            proof {
                reveal_strlit("\\u00");
                assert(("\\u00")@ =~= seq!['\\', 'u', '0', '0']);
                assert(out@ =~= out0 + json_escape_char(cc));
            }
        } else {
            out.append(s.substring_char(i, i + 1));
            proof {
                assert(s@.subrange(i as int, i + 1) =~= seq![s@[i as int]]);
                assert(out@ =~= out0 + json_escape_char(cc));
            }
        }
        proof {
            let pre = s@.subrange(0, i + 1);
            assert(pre.drop_last() =~= s@.subrange(0, i as int));
            assert(pre.last() == cc);
            assert(json_escaped(pre) == json_escaped(pre.drop_last()) + json_escape_char(
                pre.last(),
            ));
            assert(out@ =~= json_escaped(pre));
        }
        i = i + 1;
    }
    proof {
        assert(s@.subrange(0, n as int) =~= s@);
    }
    out
}

// ---------------------------------------------------------------------------
// Request assembly
// ---------------------------------------------------------------------------

/// One ready-to-send text-generation request: the URL, the bearer token when
/// the provider authenticates by header, and the JSON body.
#[derive(Debug, Clone)]
pub struct ApiRequest {
    pub url: String,
    pub bearer_token: Option<String>,
    pub body: String,
}

/// The JSON body of a Gemini-style request, keys in serialization order.
pub open spec fn spec_gemini_body(prompt: Seq<char>) -> Seq<char> {
    "{\"contents\":[{\"parts\":[{\"text\":\""@ + json_escaped(prompt)
        + "\"}]}],\"generationConfig\":{\"maxOutputTokens\":256,\"temperature\":0.7}}"@
}

/// The JSON body of an OpenAI-compatible chat request, keys in serialization
/// order.
pub open spec fn spec_chat_body(model: Seq<char>, prompt: Seq<char>) -> Seq<char> {
    "{\"max_tokens\":256,\"messages\":[{\"content\":\""@ + json_escaped(prompt)
        + "\",\"role\":\"user\"}],\"model\":\""@ + json_escaped(model) + "\",\"temperature\":0.7}"@
}

/// The model requested from each OpenAI-compatible provider; empty for the
/// custom endpoint, unused for Gemini.
pub open spec fn spec_model_name(p: APIProvider) -> Seq<char> {
    match p {
        APIProvider::Gemini => ""@,
        APIProvider::OpenRouter => "openchat/openchat-7b:free"@,
        APIProvider::Groq => "llama-3.2-3b-preview"@,
        APIProvider::TogetherAI => "meta-llama/Meta-Llama-3.1-8B-Instruct-Turbo"@,
        APIProvider::OpenAI => "gpt-3.5-turbo"@,
        APIProvider::Custom => ""@,
    }
}

/// The model requested from the provider.
pub fn model_name(p: &APIProvider) -> (r: &'static str)
    ensures
        r@ == spec_model_name(*p),
{
    match p {
        APIProvider::Gemini => "",
        APIProvider::OpenRouter => "openchat/openchat-7b:free",
        APIProvider::Groq => "llama-3.2-3b-preview",
        APIProvider::TogetherAI => "meta-llama/Meta-Llama-3.1-8B-Instruct-Turbo",
        APIProvider::OpenAI => "gpt-3.5-turbo",
        APIProvider::Custom => "",
    }
}

/// The Gemini endpoint used: the configured override, else the default.
pub open spec fn spec_gemini_endpoint(cfg: APIConfig) -> Seq<char> {
    match cfg.endpoint {
        Option::Some(e) => e@,
        Option::None => spec_default_endpoint(APIProvider::Gemini),
    }
}

/// What `build_request` returns for a given configuration and prompt: which
/// configuration errors fail it, and the exact request it assembles.
pub open spec fn spec_build_request(
    cfg: APIConfig,
    prompt: Seq<char>,
    r: Result<ApiRequest, AiError>,
) -> bool {
    match cfg.provider {
        APIProvider::Gemini => match cfg.api_key {
            Option::None => r matches Err(AiError::MissingApiKey(m)) && m@
                == "Gemini API key not set. Get one free at: https://aistudio.google.com/app/apikey"@,
            Option::Some(k) => r matches Ok(req) && req.url@ == spec_gemini_endpoint(cfg)
                + "?key="@ + k@ && req.bearer_token is None && req.body@
                == spec_gemini_body(prompt),
        },
        APIProvider::Custom => match cfg.endpoint {
            Option::None => r matches Err(AiError::MissingEndpoint(m)) && m@
                == "Custom endpoint not configured"@,
            Option::Some(ep) => match cfg.api_key {
                Option::None => r matches Err(AiError::MissingApiKey(m)) && m@
                    == "API key not set"@,
                Option::Some(k) => r matches Ok(req) && req.url@ == ep@ && (req.bearer_token
                    matches Some(t) && t@ == k@) && req.body@ == spec_chat_body(""@, prompt),
            },
        },
        _ => match cfg.api_key {
            Option::None => r matches Err(AiError::MissingApiKey(m)) && m@
                == "API key not set"@,
            Option::Some(k) => r matches Ok(req) && req.url@ == spec_default_endpoint(cfg.provider)
                && (req.bearer_token matches Some(t) && t@ == k@) && req.body@
                == spec_chat_body(spec_model_name(cfg.provider), prompt),
        },
    }
}

/// Assemble the provider request for a prompt. Fails fast, before any
/// network activity, when the configuration cannot support a call: a missing
/// API key, or a missing endpoint for the custom provider.
pub fn build_request(config: &APIConfig, prompt: &str) -> (r: Result<ApiRequest, AiError>)
    ensures
        spec_build_request(*config, prompt@, r),
{
    match config.provider {
        APIProvider::Gemini => {
            let key = match &config.api_key {
                Some(k) => k,
                None => {
                    return Err(
                        AiError::MissingApiKey(
                            String::from_str(
                                "Gemini API key not set. Get one free at: https://aistudio.google.com/app/apikey",
                            ),
                        ),
                    );
                },
            };
            let mut url = match &config.endpoint {
                Some(e) => e.clone(),
                None => String::from_str(APIProvider::Gemini.default_endpoint()),
            };
            url.append("?key=");
            url.append(key.as_str());
            let mut body = String::from_str("{\"contents\":[{\"parts\":[{\"text\":\"");
            body.append(escape_json(prompt).as_str());
            body.append(
                "\"}]}],\"generationConfig\":{\"maxOutputTokens\":256,\"temperature\":0.7}}",
            );
            Ok(ApiRequest { url, bearer_token: None, body })
        },
        APIProvider::Custom => {
            let endpoint = match &config.endpoint {
                Some(e) => e,
                None => {
                    return Err(
                        AiError::MissingEndpoint(
                            String::from_str("Custom endpoint not configured"),
                        ),
                    );
                },
            };
            let key = match &config.api_key {
                Some(k) => k,
                None => {
                    return Err(AiError::MissingApiKey(String::from_str("API key not set")));
                },
            };
            Ok(
                ApiRequest {
                    url: endpoint.clone(),
                    bearer_token: Some(key.clone()),
                    body: chat_body("", prompt),
                },
            )
        },
        _ => {
            let key = match &config.api_key {
                Some(k) => k,
                None => {
                    return Err(AiError::MissingApiKey(String::from_str("API key not set")));
                },
            };
            Ok(
                ApiRequest {
                    url: String::from_str(config.provider.default_endpoint()),
                    bearer_token: Some(key.clone()),
                    body: chat_body(model_name(&config.provider), prompt),
                },
            )
        },
    }
}

/// Assemble the OpenAI-compatible JSON body.
fn chat_body(model: &str, prompt: &str) -> (r: String)
    ensures
        r@ == spec_chat_body(model@, prompt@),
{
    let mut body = String::from_str("{\"max_tokens\":256,\"messages\":[{\"content\":\"");
    body.append(escape_json(prompt).as_str());
    body.append("\",\"role\":\"user\"}],\"model\":\"");
    body.append(escape_json(model).as_str());
    body.append("\",\"temperature\":0.7}");
    body
}

// ---------------------------------------------------------------------------
// Response interpretation
// ---------------------------------------------------------------------------

/// The error-message prefix for a failed provider call.
pub open spec fn spec_error_prefix(p: APIProvider) -> Seq<char> {
    if p is Gemini {
        "Gemini API error: "@
    } else {
        "API error: "@
    }
}

/// The no-text error message for a provider.
pub open spec fn spec_no_response(p: APIProvider) -> Seq<char> {
    if p is Gemini {
        "No response from Gemini"@
    } else {
        "No response from API"@
    }
}

/// Decide what a provider response means. `status` is the HTTP status,
/// `body` the raw response text, and `extracted` the generated text pulled
/// out of the response envelope, when the envelope held one. A non-success
/// status fails with the body as detail; a success without text fails as an
/// empty response; otherwise the generated text is returned.
pub fn response_outcome(
    provider: &APIProvider,
    status: u16,
    body: &str,
    extracted: Option<String>,
) -> (r: Result<String, AiError>)
    ensures
        !(200 <= status < 300) ==> (r matches Err(AiError::ProviderError(m)) && m@
            == spec_error_prefix(*provider) + body@),
        200 <= status < 300 && extracted is None ==> (r matches Err(AiError::NoResponse(m))
            && m@ == spec_no_response(*provider)),
        200 <= status < 300 && extracted is Some ==> (r matches Ok(s) && s == extracted->Some_0),
{
    if !(200 <= status && status < 300) {
        let mut m = if matches!(provider, APIProvider::Gemini) {
            String::from_str("Gemini API error: ")
        } else {
            String::from_str("API error: ")
        };
        m.append(body);
        return Err(AiError::ProviderError(m));
    }
    match extracted {
        Some(t) => Ok(t),
        None => {
            let m = if matches!(provider, APIProvider::Gemini) {
                String::from_str("No response from Gemini")
            } else {
                String::from_str("No response from API")
            };
            Err(AiError::NoResponse(m))
        },
    }
}

} // verus!
