//! Voice assistant configuration, errors and the engines' settings.

use vstd::prelude::*;

verus! {

/// `"true"` or `"false"`.
pub open spec fn bool_text(b: bool) -> Seq<char> {
    if b { "true"@ } else { "false"@ }
}

pub fn bool_to_string(b: bool) -> (r: String)
    ensures
        r@ == bool_text(b),
{
    if b { String::from_str("true") } else { String::from_str("false") }
}

/// Settings of the voice assistant.
#[derive(Debug, Clone, PartialEq, Eq)]
pub struct VoiceConfig {
    pub enabled: bool,
    /// Language code, such as `en-US`.
    pub language: String,
    pub model: String,
    pub tts_engine: Option<String>,
    pub stt_engine: Option<String>,
}

/// The engine's name, or `default` where none is set.
pub open spec fn engine_text(e: Option<String>) -> Seq<char> {
    match e {
        Some(s) => s@,
        None => "default"@,
    }
}

fn engine_str(e: &Option<String>) -> (r: &str)
    ensures
        r@ == engine_text(*e),
{
    match e {
        Some(s) => s.as_str(),
        None => "default",
    }
}

impl VoiceConfig {
    pub open spec fn text(self) -> Seq<char> {
        "VoiceConfig(enabled="@ + bool_text(self.enabled) + ", language="@ + self.language@ + ", model="@
            + self.model@ + ", tts_engine="@ + engine_text(self.tts_engine) + ", stt_engine="@
            + engine_text(self.stt_engine) + ")"@
    }

    /// The one-line description of the settings.
    pub fn to_string(&self) -> (r: String)
        ensures
            r@ == self.text(),
    {
        let mut s = String::from_str("VoiceConfig(enabled=");
        let b = bool_to_string(self.enabled);
        s.append(b.as_str());
        s.append(", language=");
        s.append(self.language.as_str());
        s.append(", model=");
        s.append(self.model.as_str());
        s.append(", tts_engine=");
        s.append(engine_str(&self.tts_engine));
        s.append(", stt_engine=");
        s.append(engine_str(&self.stt_engine));
        s.append(")");
        s
    }
}

impl Default for VoiceConfig {
    fn default() -> (r: Self)
        ensures
            !r.enabled,
            r.language@ == "en-US"@,
            r.model@ == "whisper-tiny"@,
            r.tts_engine is None,
            r.stt_engine is None,
    {
        VoiceConfig {
            enabled: false,
            language: String::from_str("en-US"),
            model: String::from_str("whisper-tiny"),
            tts_engine: None,
            stt_engine: None,
        }
    }
}

#[verifier::external_type_specification]
#[verifier::external_body]
pub struct ExIoError(std::io::Error);

/// Why a voice operation failed.
#[derive(Debug)]
pub enum VoiceError {
    NotAvailable,
    NotSupported(String),
    InvalidInput(String),
    AudioError(String),
    NetworkError(String),
    ConfigError(String),
    IoError(std::io::Error),
    Other(String),
}

pub type VoiceResult<T> = Result<T, VoiceError>;

impl VoiceError {
    /// The message of the error; that of an I/O error is its kind's alone.
    pub open spec fn text(&self) -> Seq<char> {
        match self {
            VoiceError::NotAvailable => "Voice service is not available"@,
            VoiceError::NotSupported(m) => "Operation not supported: "@ + m@,
            VoiceError::InvalidInput(m) => "Invalid input: "@ + m@,
            VoiceError::AudioError(m) => "Audio processing error: "@ + m@,
            VoiceError::NetworkError(m) => "Network error: "@ + m@,
            VoiceError::ConfigError(m) => "Configuration error: "@ + m@,
            VoiceError::IoError(_) => "IO error"@,
            VoiceError::Other(m) => "Voice error: "@ + m@,
        }
    }

    pub fn to_string(&self) -> (r: String)
        ensures
            r@ == self.text(),
    {
        match self {
            VoiceError::NotAvailable => String::from_str("Voice service is not available"),
            VoiceError::NotSupported(m) => String::from_str("Operation not supported: ").concat(m.as_str()),
            VoiceError::InvalidInput(m) => String::from_str("Invalid input: ").concat(m.as_str()),
            VoiceError::AudioError(m) => String::from_str("Audio processing error: ").concat(m.as_str()),
            VoiceError::NetworkError(m) => String::from_str("Network error: ").concat(m.as_str()),
            VoiceError::ConfigError(m) => String::from_str("Configuration error: ").concat(m.as_str()),
            VoiceError::IoError(_) => String::from_str("IO error"),
            VoiceError::Other(m) => String::from_str("Voice error: ").concat(m.as_str()),
        }
    }
}

impl From<std::io::Error> for VoiceError {
    fn from(e: std::io::Error) -> (r: VoiceError)
        ensures
            r is IoError,
    {
        VoiceError::IoError(e)
    }
}

impl vstd::std_specs::convert::FromSpecImpl<std::io::Error> for VoiceError {
    open spec fn obeys_from_spec() -> bool {
        true
    }

    open spec fn from_spec(e: std::io::Error) -> VoiceError {
        VoiceError::IoError(e)
    }
}

/// Options of one transcription.
#[derive(Debug, Clone, PartialEq)]
pub struct STTOptions {
    pub language: Option<String>,
    pub model: Option<String>,
}

impl Default for STTOptions {
    fn default() -> (r: Self)
        ensures
            (r.language matches Some(l) && l@ == "en-US"@),
            r.model is None,
    {
        STTOptions { language: Some(String::from_str("en-US")), model: None }
    }
}

/// A speech recognizer that answers without listening, for tests.
#[derive(Debug, Clone)]
pub struct MockSTT {
    available: bool,
    languages: Vec<String>,
    default_result: Option<String>,
}

impl MockSTT {
    pub closed spec fn available(&self) -> bool {
        self.available
    }

    pub closed spec fn languages(&self) -> Seq<Seq<char>> {
        self.languages@.map_values(|s: String| s@)
    }

    pub closed spec fn default_result(&self) -> Option<String> {
        self.default_result
    }

    /// Available, with three languages and no fixed answer.
    pub fn new() -> (r: Self)
        ensures
            r.available(),
            r.languages() == seq!["en-US"@, "zh-CN"@, "ja-JP"@],
            r.default_result() is None,
    {
        let mut languages: Vec<String> = Vec::new();
        languages.push(String::from_str("en-US"));
        languages.push(String::from_str("zh-CN"));
        languages.push(String::from_str("ja-JP"));
        let r = MockSTT { available: true, languages, default_result: None };
        proof {
            assert(r.languages() =~= seq!["en-US"@, "zh-CN"@, "ja-JP"@]);
        }
        r
    }

    pub fn set_available(&mut self, available: bool)
        ensures
            final(self).available() == available,
            final(self).languages() == old(self).languages(),
            final(self).default_result() == old(self).default_result(),
    {
        self.available = available;
    }

    pub fn set_languages(&mut self, languages: Vec<String>)
        ensures
            final(self).available() == old(self).available(),
            final(self).languages() == languages@.map_values(|s: String| s@),
            final(self).default_result() == old(self).default_result(),
    {
        self.languages = languages;
    }

    pub fn set_default_result(&mut self, result: Option<String>)
        ensures
            final(self).available() == old(self).available(),
            final(self).languages() == old(self).languages(),
            final(self).default_result() == result,
    {
        self.default_result = result;
    }

    pub fn is_available(&self) -> (r: bool)
        ensures
            r == self.available(),
    {
        self.available
    }

    /// The languages it claims to know; fails when it is unavailable.
    pub fn get_supported_languages(&self) -> (r: VoiceResult<Vec<String>>)
        ensures
            !self.available() ==> r matches Err(VoiceError::NotAvailable),
            self.available() ==> (r matches Ok(v) && v@.map_values(|s: String| s@) == self.languages()),
    {
        if !self.available {
            return Err(VoiceError::NotAvailable);
        }
        let mut v: Vec<String> = Vec::new();
        let mut i: usize = 0;
        while i < self.languages.len()
            invariant
                i <= self.languages@.len(),
                v@ == self.languages@.subrange(0, i as int),
            decreases self.languages@.len() - i,
        {
            v.push(self.languages[i].clone());
            i = i + 1;
            proof {
                assert(v@ =~= self.languages@.subrange(0, i as int));
            }
        }
        proof {
            assert(v@ =~= self.languages@);
        }
        Ok(v)
    }
}

/// A voice assistant over a recognizer.
#[derive(Debug, Clone)]
pub struct LocalVoiceAssistant {
    config: VoiceConfig,
    stt: MockSTT,
}

impl LocalVoiceAssistant {
    pub closed spec fn settings(&self) -> VoiceConfig {
        self.config
    }

    pub closed spec fn recognizer(&self) -> MockSTT {
        self.stt
    }

    pub fn new(config: VoiceConfig) -> (r: Self)
        ensures
            r.settings() == config,
            r.recognizer().available(),
            r.recognizer().languages() == seq!["en-US"@, "zh-CN"@, "ja-JP"@],
    {
        LocalVoiceAssistant { config, stt: MockSTT::new() }
    }

    pub fn with_stt(self, stt: MockSTT) -> (r: Self)
        ensures
            r.settings() == self.settings(),
            r.recognizer() == stt,
    {
        LocalVoiceAssistant { config: self.config, stt }
    }

    pub fn config(&self) -> (r: &VoiceConfig)
        ensures
            *r == self.settings(),
    {
        &self.config
    }

    pub fn is_available(&self) -> (r: bool)
        ensures
            r == self.recognizer().available(),
    {
        self.stt.is_available()
    }
}

/// Settings of the Whisper recognizer.
#[derive(Debug, Clone)]
pub struct WhisperSTT {
    model_path: Option<String>,
    model_size: String,
}

impl WhisperSTT {
    pub closed spec fn model_path(&self) -> Option<String> {
        self.model_path
    }

    pub closed spec fn model_size(&self) -> Seq<char> {
        self.model_size@
    }

    /// No model path, the `base` model.
    pub fn new() -> (r: Self)
        ensures
            r.model_path() is None,
            r.model_size() == "base"@,
    {
        WhisperSTT { model_path: None, model_size: String::from_str("base") }
    }

    pub fn with_model_path(self, path: String) -> (r: Self)
        ensures
            r.model_path() == Some(path),
            r.model_size() == self.model_size(),
    {
        WhisperSTT { model_path: Some(path), model_size: self.model_size }
    }

    pub fn with_model_size(self, size: &str) -> (r: Self)
        ensures
            r.model_path() == self.model_path(),
            r.model_size() == size@,
    {
        WhisperSTT { model_path: self.model_path, model_size: String::from_str(size) }
    }

    /// The file name of the model: `ggml-<size>.bin`.
    pub fn model_file_name(&self) -> (r: String)
        ensures
            r@ == "ggml-"@ + self.model_size() + ".bin"@,
    {
        let mut s = String::from_str("ggml-");
        s.append(self.model_size.as_str());
        s.append(".bin");
        s
    }
}

/// Speech output through Windows' speech synthesizer.
#[derive(Debug, Clone)]
pub struct WindowsTTS {
    config: VoiceConfig,
}

impl WindowsTTS {
    pub fn new() -> (r: VoiceResult<Self>)
        ensures
            r is Ok,
    {
        Ok(WindowsTTS { config: VoiceConfig::default() })
    }

    pub fn config(&self) -> &VoiceConfig {
        &self.config
    }
}

/// Speech output through espeak.
#[derive(Debug, Clone)]
pub struct LinuxTTS {
    config: VoiceConfig,
}

impl LinuxTTS {
    pub fn config(&self) -> &VoiceConfig {
        &self.config
    }
}

/// Speech output through macOS' `say`.
#[derive(Debug, Clone)]
pub struct MacOSTTS {
    config: VoiceConfig,
}

impl MacOSTTS {
    pub fn new() -> (r: VoiceResult<Self>)
        ensures
            r is Ok,
    {
        Ok(MacOSTTS { config: VoiceConfig::default() })
    }

    pub fn config(&self) -> &VoiceConfig {
        &self.config
    }
}

/// A speech synthesizer that stays silent, for tests.
#[derive(Debug, Clone)]
pub struct MockTTS {
    available: bool,
    voices: Vec<String>,
}

impl MockTTS {
    pub closed spec fn available(&self) -> bool {
        self.available
    }

    pub closed spec fn voices(&self) -> Seq<Seq<char>> {
        self.voices@.map_values(|s: String| s@)
    }

    pub fn new() -> (r: Self)
        ensures
            r.available(),
            r.voices() == seq!["mock-voice-1"@, "mock-voice-2"@],
    {
        let mut voices: Vec<String> = Vec::new();
        voices.push(String::from_str("mock-voice-1"));
        voices.push(String::from_str("mock-voice-2"));
        let r = MockTTS { available: true, voices };
        proof {
            assert(r.voices() =~= seq!["mock-voice-1"@, "mock-voice-2"@]);
        }
        r
    }

    pub fn set_available(&mut self, available: bool)
        ensures
            final(self).available() == available,
            final(self).voices() == old(self).voices(),
    {
        self.available = available;
    }

    pub fn set_voices(&mut self, voices: Vec<String>)
        ensures
            final(self).available() == old(self).available(),
            final(self).voices() == voices@.map_values(|s: String| s@),
    {
        self.voices = voices;
    }

    pub fn is_available(&self) -> (r: bool)
        ensures
            r == self.available(),
    {
        self.available
    }
}

} // verus!
