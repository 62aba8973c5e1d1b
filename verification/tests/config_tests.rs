use grumpy_clippy::config::{
    ConfigError, ConfigSource, FileConfig, GitIntegrationMode, GrumpinessLevel, OutputFormat,
};
use std::str::FromStr;

#[test]
fn test_grumpiness_level_parsing() {
    assert_eq!(
        GrumpinessLevel::from_str("mild").unwrap(),
        GrumpinessLevel::Mild
    );
    assert_eq!(
        GrumpinessLevel::from_str("SARCASTIC").unwrap(),
        GrumpinessLevel::Sarcastic
    );
    assert_eq!(
        GrumpinessLevel::from_str("ruDE").unwrap(),
        GrumpinessLevel::Rude
    );
    assert!(GrumpinessLevel::from_str("NOT_A_GUMPINESS_LEVEL").is_err())
}

#[test]
fn test_output_format_parsing() {
    assert_eq!(OutputFormat::from_str("jSoN").unwrap(), OutputFormat::Json);
    assert_eq!(
        OutputFormat::from_str("fancy").unwrap(),
        OutputFormat::Fancy
    );
    assert_eq!(OutputFormat::from_str("TXT").unwrap(), OutputFormat::Txt);
    assert!(OutputFormat::from_str("_json").is_err())
}

#[test]
fn test_git_integration_mode_parsing() {
    assert_eq!(
        GitIntegrationMode::from_str("always").unwrap(),
        GitIntegrationMode::Always
    );
    assert_eq!(
        GitIntegrationMode::from_str("NeVeR").unwrap(),
        GitIntegrationMode::Never
    );
    assert_eq!(
        GitIntegrationMode::from_str("ON_PUSH").unwrap(),
        GitIntegrationMode::OnPush
    );
    assert_eq!(
        GitIntegrationMode::from_str("on_Commit").unwrap(),
        GitIntegrationMode::OnCommit
    );
    assert!(GitIntegrationMode::from_str("oncommit").is_err());
}

#[test]
fn test_invalid_file_path_config_file() {
    let loaded = FileConfig::from_file(
        "file_does_not_exists.toml",
        ConfigSource::Missing,
    );
    assert!(matches!(
        loaded,
        Err(ConfigError::FileNotFoundError(_))
    ));
}

#[test]
fn test_invalid_file_content() {
    let loaded = FileConfig::from_file(
        "tmp.toml",
        ConfigSource::Malformed("invalid array".to_string()),
    );
    assert!(matches!(
        loaded,
        Err(ConfigError::InvalidFile(_, _))
    ));
}

#[test]
fn unreadable_config_file_carries_path_and_reason() {
    let loaded = FileConfig::from_file(
        "grumpy.toml",
        ConfigSource::Unreadable("permission denied".to_string()),
    );
    match loaded {
        Err(ConfigError::InvalidFile(path, reason)) => {
            assert_eq!(path, "grumpy.toml");
            assert_eq!(reason, "permission denied");
        }
        _ => panic!("an unreadable file must be reported as invalid"),
    }
}

#[test]
fn parse_error_carries_the_text_as_given() {
    match GrumpinessLevel::from_str("Grumpy") {
        Err(ConfigError::InvalidGrumpinessLevel(given)) => {
            assert_eq!(given, "Grumpy")
        }
        _ => panic!("an unknown level must be refused"),
    }
    match OutputFormat::from_str("XML") {
        Err(ConfigError::InvalidOutputFormat(given)) => {
            assert_eq!(given, "XML")
        }
        _ => panic!("an unknown format must be refused"),
    }
    match GitIntegrationMode::from_str("Sometimes") {
        Err(ConfigError::InvalidGitIntegrationMode(given)) => {
            assert_eq!(given, "Sometimes")
        }
        _ => panic!("an unknown mode must be refused"),
    }
}

#[test]
fn parsing_goes_by_the_lower_case_form() {
    assert_eq!(
        GrumpinessLevel::from_lowercase("rude", "RUDE").unwrap(),
        GrumpinessLevel::Rude
    );
    assert!(GrumpinessLevel::from_lowercase("RUDE", "RUDE").is_err());
    assert_eq!(
        OutputFormat::from_lowercase("txt", "Txt").unwrap(),
        OutputFormat::Txt
    );
    assert_eq!(
        GitIntegrationMode::from_lowercase("on_push", "On_Push").unwrap(),
        GitIntegrationMode::OnPush
    );
}

#[test]
fn variant_names_are_displayed() {
    assert_eq!(GrumpinessLevel::Sarcastic.name(), "Sarcastic");
    assert_eq!(OutputFormat::Json.name(), "Json");
    assert_eq!(GitIntegrationMode::OnCommit.name(), "OnCommit");
}

#[test]
fn config_error_messages() {
    assert_eq!(
        ConfigError::FileNotFoundError("a/b.toml".to_string()).message(),
        "File 'a/b.toml' could not be found"
    );
    assert_eq!(
        ConfigError::InvalidFile("a/b.toml".to_string(), "bad".to_string()).message(),
        "File 'a/b.toml' seems to be invalid. Error: bad"
    );
    assert_eq!(
        ConfigError::ValueTooSmall("max_complexity".to_string(), 0, 0).message(),
        "max_complexity must be greater than 0, but got 0"
    );
    assert_eq!(
        ConfigError::ValueTooSmall("max_function_size".to_string(), 7, 120).message(),
        "max_function_size must be greater than 120, but got 7"
    );
    assert_eq!(
        ConfigError::MissingWatchFiles.message(),
        "Watch files shall not be empty!"
    );
    assert_eq!(
        ConfigError::InvalidGrumpinessLevel("x".to_string()).message(),
        "GrumpinessLevel must be 'mild', 'sarcastic', or 'rude', but got x"
    );
    assert_eq!(
        ConfigError::InvalidOutputFormat("x".to_string()).message(),
        "OutputFormat must be 'txt', 'json', or 'fancy', but got x"
    );
    assert_eq!(
        ConfigError::InvalidGitIntegrationMode("x".to_string()).message(),
        "GitIntegration must be 'never', 'always', 'onpush' or 'oncommit', but got x"
    );
}
