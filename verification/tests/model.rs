use imagen::model::{detect_provider, resolve_model, Provider};

#[test]
fn resolve_nano_banana() {
    assert_eq!(resolve_model("nano-banana"), "gemini-3.1-flash-image-preview");
}

#[test]
fn resolve_nano_banana_pro() {
    assert_eq!(resolve_model("nano-banana-pro"), "gemini-3-pro-image-preview");
}

#[test]
fn resolve_gpt_aliases() {
    assert_eq!(resolve_model("gpt-1.5"), "gpt-image-1.5");
    assert_eq!(resolve_model("gpt-1"), "gpt-image-1");
    assert_eq!(resolve_model("gpt-1-mini"), "gpt-image-1-mini");
}

#[test]
fn resolve_exact_name_passthrough() {
    assert_eq!(resolve_model("gemini-3-pro-image-preview"), "gemini-3-pro-image-preview");
    assert_eq!(resolve_model("gpt-image-1.5"), "gpt-image-1.5");
}

#[test]
fn detect_gemini_provider() {
    assert_eq!(detect_provider("gemini-3-pro-image-preview").unwrap(), Provider::Gemini);
}

#[test]
fn detect_openai_provider() {
    assert_eq!(detect_provider("gpt-image-1").unwrap(), Provider::OpenAi);
    assert_eq!(detect_provider("gpt-image-1.5").unwrap(), Provider::OpenAi);
    assert_eq!(detect_provider("gpt-image-1-mini").unwrap(), Provider::OpenAi);
}

#[test]
fn detect_unknown_provider() {
    assert!(detect_provider("dall-e-3").is_err());
    assert!(detect_provider("unknown-model").is_err());
}

#[test]
fn detect_provider_needs_whole_prefix() {
    assert_eq!(detect_provider("gemini").unwrap(), Provider::Gemini);
    assert_eq!(detect_provider("gpt-image").unwrap(), Provider::OpenAi);
    assert!(detect_provider("gemin").is_err());
    assert!(detect_provider("gpt-imag").is_err());
    assert!(detect_provider("").is_err());
    assert!(detect_provider("x-gemini").is_err());
}

#[test]
fn detect_provider_error_quotes_the_model() {
    assert_eq!(
        detect_provider("dall-e-3").unwrap_err(),
        "Unknown provider for model 'dall-e-3'. Expected 'gemini-*' or 'gpt-image-*'."
    );
}

#[test]
fn resolved_aliases_have_a_provider() {
    for alias in ["nano-banana", "nano-banana-pro"] {
        assert_eq!(detect_provider(&resolve_model(alias)).unwrap(), Provider::Gemini);
    }
    for alias in ["gpt-1.5", "gpt-1", "gpt-1-mini"] {
        assert_eq!(detect_provider(&resolve_model(alias)).unwrap(), Provider::OpenAi);
    }
}

#[test]
fn resolve_handles_text_beyond_ascii() {
    assert_eq!(resolve_model("modèle-é"), "modèle-é");
    assert_eq!(resolve_model(""), "");
}
