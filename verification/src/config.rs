//! The assistant's settings, as read from `config.toml`.
use vstd::prelude::*;

verus! {

/// All settings.
#[derive(Debug)]
pub struct Config {
    pub brain: BrainConfig,
    pub voice: Option<VoiceConfig>,
    /// Defaults to `WebToolsConfig::default()` when the section is absent.
    pub tools: WebToolsConfig,
}

/// Settings of the network tools.
#[derive(Debug)]
pub struct WebToolsConfig {
    /// Default city for `get_weather` (`default_location()` when the key is
    /// absent from a present section).
    pub default_location: String,
    /// SearXNG instance for `search_web`; empty disables the tool.
    pub searxng_url: String,
}

/// The language model's settings.
#[derive(Debug)]
pub struct BrainConfig {
    pub ollama_url: String,
    pub model: String,
}

/// The voice layer's settings.
#[derive(Debug)]
pub struct VoiceConfig {
    pub tts_voice: String,
    pub whisper_model: String,
    /// Continuous listening for the wake word « Edith » (false when absent).
    pub wake_word: bool,
}

/// The default city of `get_weather` when its section does not name one.
pub fn default_location() -> (r: String)
    ensures
        r@ == "Paris"@,
{
    String::from_str("Paris")
}

impl Default for WebToolsConfig {
    /// Both fields empty: the value used when the whole section is absent.
    fn default() -> (r: Self)
        ensures
            r.default_location@ == Seq::<char>::empty(),
            r.searxng_url@ == Seq::<char>::empty(),
    {
        WebToolsConfig { default_location: String::new(), searxng_url: String::new() }
    }
}

} // verus!
