use imagen::cli::{Cli, PromptSource};
use imagen::config::{
    apply_defaults, default_config_path, discover_config_path, Config, ConfigLocation, KeysConfig,
};

#[test]
fn default_config() {
    let config = Config::default();
    assert!(config.keys.gemini.is_none());
    assert!(config.keys.openai.is_none());
    assert_eq!(config.defaults.model, "nano-banana");
    assert_eq!(config.defaults.aspect_ratio, "1:1");
    assert_eq!(config.defaults.size, "1K");
    assert_eq!(config.defaults.quality, "auto");
    assert_eq!(config.defaults.format, "jpeg");
}

#[test]
fn config_default_overrides_cli_default() {
    // When the CLI value is still "nano-banana" (the built-in default), the config default wins.
    assert_eq!(apply_defaults("nano-banana", "nano-banana", "gpt-1"), "gpt-1");
}

#[test]
fn explicit_cli_flag_overrides_config_default() {
    // When the user explicitly sets a different model, that value wins.
    assert_eq!(apply_defaults("dall-e", "nano-banana", "gpt-1"), "dall-e");
}

#[test]
fn gemini_key_env_override() {
    let config = Config {
        keys: KeysConfig { gemini: Some("from-file".into()), openai: None },
        ..Config::default()
    };

    // Without env var, returns file value
    assert_eq!(config.gemini_key(None).as_deref(), Some("from-file"));
}

#[test]
fn key_from_environment_wins() {
    let config = Config {
        keys: KeysConfig { gemini: Some("from-file".into()), openai: Some("file-too".into()) },
        ..Config::default()
    };
    assert_eq!(config.gemini_key(Some("from-env".into())).as_deref(), Some("from-env"));
    assert_eq!(config.openai_key(Some("env".into())).as_deref(), Some("env"));
    assert_eq!(config.openai_key(None).as_deref(), Some("file-too"));
    assert_eq!(Config::default().openai_key(None), None);
}

#[test]
fn discover_explicit_path() {
    match discover_config_path(Some("/tmp/my-config.toml"), None, None) {
        ConfigLocation::File(path) => assert_eq!(path, "/tmp/my-config.toml"),
        other => panic!("unexpected: {:?}", other),
    }
}

#[test]
fn discover_follows_resolution_order() {
    match discover_config_path(Some("a.toml"), Some("b.toml"), Some("/home/u")) {
        ConfigLocation::File(path) => assert_eq!(path, "a.toml"),
        other => panic!("unexpected: {:?}", other),
    }
    match discover_config_path(None, Some("b.toml"), Some("/home/u")) {
        ConfigLocation::File(path) => assert_eq!(path, "b.toml"),
        other => panic!("unexpected: {:?}", other),
    }
    match discover_config_path(None, None, Some("/home/u")) {
        ConfigLocation::UnderHome(home) => assert_eq!(home, "/home/u"),
        other => panic!("unexpected: {:?}", other),
    }
    assert!(matches!(discover_config_path(None, None, None), ConfigLocation::Local));
    assert!(matches!(default_config_path(None), ConfigLocation::Local));
}

fn flags(prompt: Option<&str>, prompt_file: Option<&str>) -> Cli {
    Cli {
        prompt: prompt.map(String::from),
        prompt_file: prompt_file.map(String::from),
        model: "nano-banana".into(),
        aspect_ratio: "1:1".into(),
        size: "1K".into(),
        quality: "auto".into(),
        format: "jpeg".into(),
        output: None,
        count: 1,
        config: None,
        thinking: None,
        verbose: false,
    }
}

#[test]
fn positional_prompt() {
    let cli = flags(Some("a cat"), None);
    assert_eq!(cli.prompt.as_deref(), Some("a cat"));
    assert!(cli.prompt_file.is_none());
    match cli.resolve_prompt().unwrap() {
        PromptSource::Inline(text) => assert_eq!(text, "a cat"),
        other => panic!("unexpected: {:?}", other),
    }
}

#[test]
fn prompt_file_flag() {
    let cli = flags(None, Some("prompt.txt"));
    assert!(cli.prompt.is_none());
    assert!(cli.prompt_file.is_some());
    match cli.resolve_prompt().unwrap() {
        PromptSource::File(path) => assert_eq!(path, "prompt.txt"),
        other => panic!("unexpected: {:?}", other),
    }
}

#[test]
fn no_prompt_errors() {
    let cli = flags(None, None);
    assert!(cli.resolve_prompt().is_err());
    assert_eq!(
        cli.resolve_prompt().unwrap_err(),
        "Provide a prompt string or use -p/--prompt-file"
    );
}

#[test]
fn prompt_argument_comes_before_file() {
    match flags(Some("a cat"), Some("prompt.txt")).resolve_prompt().unwrap() {
        PromptSource::Inline(text) => assert_eq!(text, "a cat"),
        other => panic!("unexpected: {:?}", other),
    }
}
