use task_scheduler::events::FileEventType;
use task_scheduler::model::ConversationState;
use task_scheduler::voice::{
    LocalVoiceAssistant, MockSTT, MockTTS, STTOptions, VoiceConfig, VoiceError, VoiceResult, WhisperSTT,
};

#[test]
fn config_test_voice_config_default() {
    let config = VoiceConfig::default();
    assert!(!config.enabled);
    assert_eq!(config.language, "en-US");
    assert_eq!(config.model, "whisper-tiny");
    assert!(config.tts_engine.is_none());
    assert!(config.stt_engine.is_none());
}

#[test]
fn test_voice_config_equality() {
    let config1 = VoiceConfig {
        enabled: true,
        language: "zh-CN".to_string(),
        model: "whisper-small".to_string(),
        tts_engine: Some("espeak".to_string()),
        stt_engine: Some("whisper".to_string()),
    };

    let config2 = VoiceConfig {
        enabled: true,
        language: "zh-CN".to_string(),
        model: "whisper-small".to_string(),
        tts_engine: Some("espeak".to_string()),
        stt_engine: Some("whisper".to_string()),
    };

    assert_eq!(config1, config2);
}

#[test]
fn test_voice_config_inequality() {
    let config1 = VoiceConfig {
        enabled: true,
        language: "en-US".to_string(),
        model: "whisper-tiny".to_string(),
        tts_engine: None,
        stt_engine: None,
    };

    let config2 = VoiceConfig {
        enabled: false,
        language: "zh-CN".to_string(),
        model: "whisper-small".to_string(),
        tts_engine: None,
        stt_engine: None,
    };

    assert_ne!(config1, config2);
}

#[test]
fn test_voice_config_clone() {
    let config = VoiceConfig {
        enabled: true,
        language: "zh-CN".to_string(),
        model: "whisper-base".to_string(),
        tts_engine: Some("sapi".to_string()),
        stt_engine: Some("whisper".to_string()),
    };

    let cloned = config.clone();
    assert_eq!(config, cloned);
}

#[test]
fn test_voice_config_display() {
    let config = VoiceConfig {
        enabled: true,
        language: "zh-CN".to_string(),
        model: "whisper-small".to_string(),
        tts_engine: Some("espeak".to_string()),
        stt_engine: Some("whisper".to_string()),
    };

    let display = config.to_string();
    assert!(display.contains("enabled=true"));
    assert!(display.contains("language=zh-CN"));
    assert!(display.contains("model=whisper-small"));
    assert!(display.contains("tts_engine=espeak"));
    assert!(display.contains("stt_engine=whisper"));
}

#[test]
fn test_voice_config_display_with_none() {
    let config = VoiceConfig {
        enabled: false,
        language: "en-US".to_string(),
        model: "whisper-tiny".to_string(),
        tts_engine: None,
        stt_engine: None,
    };

    let display = config.to_string();
    assert!(display.contains("enabled=false"));
    assert!(display.contains("tts_engine=default"));
    assert!(display.contains("stt_engine=default"));
}

#[test]
fn test_voice_config_debug() {
    let config = VoiceConfig {
        enabled: true,
        language: "en-US".to_string(),
        model: "whisper-tiny".to_string(),
        tts_engine: Some("sapi".to_string()),
        stt_engine: Some("whisper".to_string()),
    };

    let debug = format!("{:?}", config);
    assert!(debug.contains("VoiceConfig"));
    assert!(debug.contains("enabled"));
    assert!(debug.contains("language"));
}

#[test]
fn voice_config_full_text() {
    let config = VoiceConfig::default();
    assert_eq!(
        config.to_string(),
        "VoiceConfig(enabled=false, language=en-US, model=whisper-tiny, tts_engine=default, stt_engine=default)"
    );
}

#[test]
fn test_voice_error_display() {
    let err = VoiceError::NotAvailable;
    assert_eq!(err.to_string(), "Voice service is not available");

    let err = VoiceError::NotSupported("test operation".to_string());
    assert_eq!(err.to_string(), "Operation not supported: test operation");

    let err = VoiceError::InvalidInput("empty text".to_string());
    assert_eq!(err.to_string(), "Invalid input: empty text");

    let err = VoiceError::AudioError("format error".to_string());
    assert_eq!(err.to_string(), "Audio processing error: format error");

    let err = VoiceError::NetworkError("timeout".to_string());
    assert_eq!(err.to_string(), "Network error: timeout");

    let err = VoiceError::ConfigError("missing key".to_string());
    assert_eq!(err.to_string(), "Configuration error: missing key");

    let err = VoiceError::Other("unknown error".to_string());
    assert_eq!(err.to_string(), "Voice error: unknown error");
}

#[test]
fn test_voice_error_from_io_error() {
    let io_err = std::io::Error::new(std::io::ErrorKind::NotFound, "file not found");
    let voice_err: VoiceError = io_err.into();
    assert!(matches!(voice_err, VoiceError::IoError(_)));
}

#[test]
fn test_voice_result_ok() {
    let result: VoiceResult<String> = Ok("success".to_string());
    assert!(result.is_ok());
    assert_eq!(result.unwrap(), "success");
}

#[test]
fn test_voice_result_err() {
    let result: VoiceResult<String> = Err(VoiceError::NotAvailable);
    assert!(result.is_err());
    assert!(matches!(result.unwrap_err(), VoiceError::NotAvailable));
}

#[test]
fn test_voice_error_not_available() {
    let err = VoiceError::NotAvailable;
    assert!(matches!(err, VoiceError::NotAvailable));
}

#[test]
fn test_voice_error_not_supported() {
    let err = VoiceError::NotSupported("recording".to_string());
    assert!(matches!(err, VoiceError::NotSupported(_)));
    if let VoiceError::NotSupported(msg) = err {
        assert_eq!(msg, "recording");
    }
}

#[test]
fn test_voice_error_invalid_input() {
    let err = VoiceError::InvalidInput("text is empty".to_string());
    assert!(matches!(err, VoiceError::InvalidInput(_)));
    if let VoiceError::InvalidInput(msg) = err {
        assert_eq!(msg, "text is empty");
    }
}

#[test]
fn test_voice_error_audio_error() {
    let err = VoiceError::AudioError("encoding failed".to_string());
    assert!(matches!(err, VoiceError::AudioError(_)));
    if let VoiceError::AudioError(msg) = err {
        assert_eq!(msg, "encoding failed");
    }
}

#[test]
fn test_voice_error_network_error() {
    let err = VoiceError::NetworkError("connection refused".to_string());
    assert!(matches!(err, VoiceError::NetworkError(_)));
    if let VoiceError::NetworkError(msg) = err {
        assert_eq!(msg, "connection refused");
    }
}

#[test]
fn test_voice_error_config_error() {
    let err = VoiceError::ConfigError("invalid API key".to_string());
    assert!(matches!(err, VoiceError::ConfigError(_)));
    if let VoiceError::ConfigError(msg) = err {
        assert_eq!(msg, "invalid API key");
    }
}

#[test]
fn test_stt_options_default() {
    let options = STTOptions::default();
    assert_eq!(options.language, Some("en-US".to_string()));
    assert!(options.model.is_none());
}

#[test]
fn test_stt_options_custom() {
    let options = STTOptions {
        language: Some("zh-CN".to_string()),
        model: Some("whisper-base".to_string()),
    };

    assert_eq!(options.language, Some("zh-CN".to_string()));
    assert_eq!(options.model, Some("whisper-base".to_string()));
}

#[test]
fn test_stt_options_equality() {
    let opts1 = STTOptions {
        language: Some("en".to_string()),
        model: Some("model".to_string()),
    };

    let opts2 = STTOptions {
        language: Some("en".to_string()),
        model: Some("model".to_string()),
    };

    assert_eq!(opts1, opts2);
}

#[test]
fn mock_recognizer_languages_and_availability() {
    let mut stt = MockSTT::new();
    assert!(stt.is_available());
    assert_eq!(stt.get_supported_languages().unwrap(), vec!["en-US".to_string(), "zh-CN".to_string(), "ja-JP".to_string()]);
    stt.set_languages(vec!["fr-FR".to_string()]);
    assert_eq!(stt.get_supported_languages().unwrap(), vec!["fr-FR".to_string()]);
    stt.set_available(false);
    assert!(matches!(stt.get_supported_languages(), Err(VoiceError::NotAvailable)));
    stt.set_default_result(Some("hi".to_string()));

    let assistant = LocalVoiceAssistant::new(VoiceConfig::default()).with_stt(stt);
    assert!(!assistant.is_available());
    assert_eq!(assistant.config().language, "en-US");

    let mut tts = MockTTS::new();
    assert!(tts.is_available());
    tts.set_available(false);
    tts.set_voices(Vec::new());
    assert!(!tts.is_available());
}

#[test]
fn whisper_model_file_name() {
    let w = WhisperSTT::new();
    assert_eq!(w.model_file_name(), "ggml-base.bin");
    let w = w.with_model_size("small").with_model_path("/models".to_string());
    assert_eq!(w.model_file_name(), "ggml-small.bin");
}

#[test]
fn test_conversation_state() {
    assert_eq!(ConversationState::Idle, ConversationState::Idle);
    assert_ne!(ConversationState::Idle, ConversationState::Listening);
}

#[test]
fn test_file_event_type_equality() {
    assert_eq!(FileEventType::Created, FileEventType::Created);
    assert_ne!(FileEventType::Created, FileEventType::Modified);
}
