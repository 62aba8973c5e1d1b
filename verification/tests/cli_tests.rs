use grumpy_clippy::cli::{CliArgs, MergedConfig};
use grumpy_clippy::config::{
    ConfigError, FileConfig, GitIntegrationMode, GrumpinessLevel, OutputFormat,
};

/// The arguments of an empty command line.
fn no_args() -> CliArgs {
    CliArgs {
        config_file: None,
        grumpiness_level: None,
        verbose: false,
        watch_files: vec![],
        ignore_patterns: vec![],
        max_function_size: None,
        max_complexity: None,
        print_color: false,
        custom_rules: None,
        output_format: None,
        git_integration: None,
        max_warnings: None,
        rules_file: None,
    }
}

fn full_file_config(watch_files: Vec<String>) -> FileConfig {
    FileConfig {
        grumpiness_level: Some(GrumpinessLevel::Sarcastic),
        verbose: Some(false),
        watch_files: Some(watch_files),
        ignore_patterns: None,
        max_function_size: Some(50),
        max_complexity: Some(5),
        print_color: Some(true),
        custom_rules: Some("custom.toml".into()),
        output_format: Some(OutputFormat::Json),
        git_integration: Some(GitIntegrationMode::Always),
        max_warnings: Some(7),
        rules_file: Some("rules.toml".into()),
    }
}

#[test]
fn test_cli_defaults() {
    let args = no_args();
    let config = MergedConfig::from_sources(args, None);
    assert_eq!(config.grumpiness_level, GrumpinessLevel::Mild);
    assert_eq!(config.git_integration, GitIntegrationMode::Never);
    assert_eq!(config.max_complexity, 32)
}

#[test]
fn test_paramters_defined_per_cli() {
    let mut args = no_args();
    args.grumpiness_level = Some(GrumpinessLevel::Rude);
    let config = MergedConfig::from_sources(args, None);
    assert_eq!(config.grumpiness_level, GrumpinessLevel::Rude);
}

#[test]
fn test_parameters_defined_per_cli_and_config_file() {
    let mut args = no_args();
    args.output_format = Some(OutputFormat::Txt);
    args.max_complexity = Some(8);
    let file_config = full_file_config(vec!["*.md".into()]);
    let config = MergedConfig::from_sources(args, Some(file_config));
    assert_eq!(config.output_format, OutputFormat::Txt);
    assert_eq!(config.grumpiness_level, GrumpinessLevel::Sarcastic);
    assert_eq!(config.max_complexity, 8)
}

#[test]
fn test_validation_error_max_function_size() {
    let mut args = no_args();
    args.max_function_size = Some(0);
    let config = MergedConfig::from_sources(args, None);
    assert!(matches!(
        config.validate(),
        Err(ConfigError::ValueTooSmall(_, _, _))
    ))
}

#[test]
fn test_validation_error_max_complexity() {
    let mut args = no_args();
    args.max_complexity = Some(0);
    let config = MergedConfig::from_sources(args, None);
    assert!(matches!(
        config.validate(),
        Err(ConfigError::ValueTooSmall(_, _, _))
    ))
}

#[test]
fn test_validation_error_empty_watch_files() {
    let args = no_args();
    let file_config = full_file_config(vec![]);
    let config = MergedConfig::from_sources(args, Some(file_config));
    assert!(matches!(
        config.validate(),
        Err(ConfigError::MissingWatchFiles)
    ))
}

#[test]
fn every_default_is_as_documented() {
    let config = MergedConfig::from_sources(no_args(), None);
    assert_eq!(config.grumpiness_level, GrumpinessLevel::Mild);
    assert!(!config.verbose);
    assert_eq!(config.watch_files, vec![".rs", ".toml"]);
    assert_eq!(config.ignore_patterns, vec!["target/"]);
    assert_eq!(config.max_function_size, 32);
    assert_eq!(config.max_complexity, 32);
    assert!(!config.print_color);
    assert_eq!(config.custom_rules, "rules.toml");
    assert_eq!(config.output_format, OutputFormat::Fancy);
    assert_eq!(config.git_integration, GitIntegrationMode::Never);
    assert_eq!(config.max_warnings, 10);
    assert_eq!(config.rules_file, "my_custom_rules.toml");
    assert!(config.validate().is_ok());
}

#[test]
fn file_settings_fill_what_the_command_line_leaves_open() {
    let config = MergedConfig::from_sources(no_args(), Some(full_file_config(vec!["*.md".into()])));
    assert_eq!(config.grumpiness_level, GrumpinessLevel::Sarcastic);
    assert!(!config.verbose);
    assert_eq!(config.watch_files, vec!["*.md"]);
    assert_eq!(config.ignore_patterns, vec!["target/"]);
    assert_eq!(config.max_function_size, 50);
    assert_eq!(config.max_complexity, 5);
    assert!(config.print_color);
    assert_eq!(config.custom_rules, "custom.toml");
    assert_eq!(config.output_format, OutputFormat::Json);
    assert_eq!(config.git_integration, GitIntegrationMode::Always);
    assert_eq!(config.max_warnings, 7);
    assert_eq!(config.rules_file, "rules.toml");
}

#[test]
fn command_line_wins_over_file() {
    let mut args = no_args();
    args.verbose = true;
    args.watch_files = vec![".rs".into()];
    args.ignore_patterns = vec!["vendor/".into(), "\\.git/".into()];
    args.max_function_size = Some(12);
    args.custom_rules = Some("mine.toml".into());
    args.git_integration = Some(GitIntegrationMode::OnPush);
    args.max_warnings = Some(3);
    args.rules_file = Some("other.toml".into());
    let config = MergedConfig::from_sources(args, Some(full_file_config(vec!["*.md".into()])));
    assert!(config.verbose);
    assert_eq!(config.watch_files, vec![".rs"]);
    assert_eq!(config.ignore_patterns, vec!["vendor/", "\\.git/"]);
    assert_eq!(config.max_function_size, 12);
    assert_eq!(config.custom_rules, "mine.toml");
    assert_eq!(config.git_integration, GitIntegrationMode::OnPush);
    assert_eq!(config.max_warnings, 3);
    assert_eq!(config.rules_file, "other.toml");
}

#[test]
fn validation_reports_the_first_fault() {
    let mut args = no_args();
    args.max_function_size = Some(0);
    args.max_complexity = Some(0);
    let config = MergedConfig::from_sources(args, None);
    match config.validate() {
        Err(ConfigError::ValueTooSmall(setting, value, least)) => {
            assert_eq!(setting, "max_function_size");
            assert_eq!(value, 0);
            assert_eq!(least, 0);
        }
        _ => panic!("a limit of zero must be refused"),
    }
    let mut args = no_args();
    args.max_complexity = Some(0);
    let config = MergedConfig::from_sources(args, None);
    match config.validate() {
        Err(ConfigError::ValueTooSmall(setting, _, _)) => assert_eq!(setting, "max_complexity"),
        _ => panic!("a limit of zero must be refused"),
    }
}
