//! The settings of one run: what the command line gives, laid over what the
//! configuration file gives, laid over the defaults.

use crate::config::{ConfigError, FileConfig, GitIntegrationMode, GrumpinessLevel, OutputFormat};
use vstd::prelude::*;
use vstd::string::*;

verus! {

/// What the command line gives. An option that was not given is `None`, an
/// empty list or `false`.
#[derive(Debug)]
pub struct CliArgs {
    /// Path of the configuration file.
    pub config_file: Option<String>,
    /// The tone of the messages.
    pub grumpiness_level: Option<GrumpinessLevel>,
    /// Whether suggestions come with more detail.
    pub verbose: bool,
    /// File extensions to watch.
    pub watch_files: Vec<String>,
    /// Patterns of paths that are not watched.
    pub ignore_patterns: Vec<String>,
    /// The largest size a function may have.
    pub max_function_size: Option<u8>,
    /// The largest cyclomatic complexity a function may have.
    pub max_complexity: Option<u8>,
    /// Whether the output is coloured.
    pub print_color: bool,
    /// Path of the file of text rules.
    pub custom_rules: Option<String>,
    /// How the output is rendered.
    pub output_format: Option<OutputFormat>,
    /// When the repository's history is consulted.
    pub git_integration: Option<GitIntegrationMode>,
    /// How many warnings are given before the final complaint.
    pub max_warnings: Option<u32>,
    /// Path of a file of further rules.
    pub rules_file: Option<String>,
}

/// The settings in force.
#[derive(Debug)]
pub struct MergedConfig {
    pub grumpiness_level: GrumpinessLevel,
    pub verbose: bool,
    pub watch_files: Vec<String>,
    pub ignore_patterns: Vec<String>,
    pub max_function_size: u8,
    pub max_complexity: u8,
    pub print_color: bool,
    pub custom_rules: String,
    pub output_format: OutputFormat,
    pub git_integration: GitIntegrationMode,
    pub max_warnings: u32,
    pub rules_file: String,
}

/// The first of the three that is there: the command line's value, else the
/// file's, else the default.
pub open spec fn layered<T>(cli: Option<T>, file: Option<T>, fallback: T) -> T {
    match cli {
        Some(value) => value,
        None => match file {
            Some(value) => value,
            None => fallback,
        },
    }
}

/// The text of an optional string.
pub open spec fn text_of(value: Option<String>) -> Option<Seq<char>> {
    match value {
        Some(text) => Some(text@),
        None => None,
    }
}

/// The texts of an optional list of strings.
pub open spec fn texts_of(value: Option<Vec<String>>) -> Option<Seq<Seq<char>>> {
    match value {
        Some(list) => Some(list.deep_view()),
        None => None,
    }
}

/// A list given on the command line counts only where it is not empty.
pub open spec fn given_list(list: Vec<String>) -> Option<Seq<Seq<char>>> {
    if list@.len() > 0 {
        Some(list.deep_view())
    } else {
        None
    }
}

/// A setting of the file, where there is a file.
pub open spec fn from_file<T>(file: Option<FileConfig>, pick: spec_fn(FileConfig) -> Option<T>)
    -> Option<T> {
    match file {
        Some(config) => pick(config),
        None => None,
    }
}

fn first_text(cli: Option<String>, file: Option<String>, fallback: &str) -> (chosen: String)
    ensures
        chosen@ == layered(text_of(cli), text_of(file), fallback@),
{
    match cli {
        Some(value) => value,
        None => match file {
            Some(value) => value,
            None => String::from_str(fallback),
        },
    }
}

fn first_value<T>(cli: Option<T>, file: Option<T>, fallback: T) -> (chosen: T)
    ensures
        chosen == layered(cli, file, fallback),
{
    match cli {
        Some(value) => value,
        None => match file {
            Some(value) => value,
            None => fallback,
        },
    }
}

fn first_list(cli: Vec<String>, file: Option<Vec<String>>, fallback: Vec<String>) -> (chosen:
    Vec<String>)
    ensures
        chosen.deep_view() == layered(given_list(cli), texts_of(file), fallback.deep_view()),
{
    if cli.len() > 0 {
        cli
    } else {
        match file {
            Some(list) => list,
            None => fallback,
        }
    }
}

fn default_watch_files() -> (list: Vec<String>)
    ensures
        list.deep_view() == seq![".rs"@, ".toml"@],
{
    let mut list: Vec<String> = Vec::new();
    list.push(String::from_str(".rs"));
    list.push(String::from_str(".toml"));
    assert(list.deep_view() =~= seq![".rs"@, ".toml"@]);
    list
}

fn default_ignore_patterns() -> (list: Vec<String>)
    ensures
        list.deep_view() == seq!["target/"@],
{
    let mut list: Vec<String> = Vec::new();
    list.push(String::from_str("target/"));
    assert(list.deep_view() =~= seq!["target/"@]);
    list
}

impl MergedConfig {
    /// Lays the command line over the configuration file over the defaults.
    /// For each setting the command line's value is taken where it was given,
    /// else the file's where there is a file and it gives one, else the
    /// default. A switch is on where either source turns it on.
    pub fn from_sources(cli: CliArgs, file: Option<FileConfig>) -> (merged: MergedConfig)
        ensures
            merged.grumpiness_level == layered(
                cli.grumpiness_level,
                from_file(file, |f: FileConfig| f.grumpiness_level),
                GrumpinessLevel::Mild,
            ),
            merged.verbose == (cli.verbose || layered(
                None,
                from_file(file, |f: FileConfig| f.verbose),
                false,
            )),
            merged.watch_files.deep_view() == layered(
                given_list(cli.watch_files),
                from_file(file, |f: FileConfig| texts_of(f.watch_files)),
                seq![".rs"@, ".toml"@],
            ),
            merged.ignore_patterns.deep_view() == layered(
                given_list(cli.ignore_patterns),
                from_file(file, |f: FileConfig| texts_of(f.ignore_patterns)),
                seq!["target/"@],
            ),
            merged.max_function_size == layered(
                cli.max_function_size,
                from_file(file, |f: FileConfig| f.max_function_size),
                32u8,
            ),
            merged.max_complexity == layered(
                cli.max_complexity,
                from_file(file, |f: FileConfig| f.max_complexity),
                32u8,
            ),
            merged.print_color == (cli.print_color || layered(
                None,
                from_file(file, |f: FileConfig| f.print_color),
                false,
            )),
            merged.custom_rules@ == layered(
                text_of(cli.custom_rules),
                from_file(file, |f: FileConfig| text_of(f.custom_rules)),
                "rules.toml"@,
            ),
            merged.output_format == layered(
                cli.output_format,
                from_file(file, |f: FileConfig| f.output_format),
                OutputFormat::Fancy,
            ),
            merged.git_integration == layered(
                cli.git_integration,
                from_file(file, |f: FileConfig| f.git_integration),
                GitIntegrationMode::Never,
            ),
            merged.max_warnings == layered(
                cli.max_warnings,
                from_file(file, |f: FileConfig| f.max_warnings),
                10u32,
            ),
            merged.rules_file@ == layered(
                text_of(cli.rules_file),
                from_file(file, |f: FileConfig| text_of(f.rules_file)),
                "my_custom_rules.toml"@,
            ),
    {
        let given: FileConfig = match file {
            Some(config) => config,
            None => FileConfig {
                grumpiness_level: None,
                verbose: None,
                watch_files: None,
                ignore_patterns: None,
                max_function_size: None,
                max_complexity: None,
                print_color: None,
                custom_rules: None,
                output_format: None,
                git_integration: None,
                max_warnings: None,
                rules_file: None,
            },
        };
        MergedConfig {
            grumpiness_level: first_value(
                cli.grumpiness_level,
                given.grumpiness_level,
                GrumpinessLevel::Mild,
            ),
            verbose: cli.verbose || first_value(None, given.verbose, false),
            watch_files: first_list(cli.watch_files, given.watch_files, default_watch_files()),
            ignore_patterns: first_list(
                cli.ignore_patterns,
                given.ignore_patterns,
                default_ignore_patterns(),
            ),
            max_function_size: first_value(cli.max_function_size, given.max_function_size, 32),
            max_complexity: first_value(cli.max_complexity, given.max_complexity, 32),
            print_color: cli.print_color || first_value(None, given.print_color, false),
            custom_rules: first_text(cli.custom_rules, given.custom_rules, "rules.toml"),
            output_format: first_value(cli.output_format, given.output_format, OutputFormat::Fancy),
            git_integration: first_value(
                cli.git_integration,
                given.git_integration,
                GitIntegrationMode::Never,
            ),
            max_warnings: first_value(cli.max_warnings, given.max_warnings, 10),
            rules_file: first_text(cli.rules_file, given.rules_file, "my_custom_rules.toml"),
        }
    }

    /// What `validate` answers.
    pub open spec fn fault(self) -> Option<ConfigFault> {
        if self.max_function_size == 0 {
            Some(ConfigFault::FunctionSize)
        } else if self.max_complexity == 0 {
            Some(ConfigFault::Complexity)
        } else if self.watch_files@.len() == 0 {
            Some(ConfigFault::WatchFiles)
        } else {
            None
        }
    }

    /// Checks the settings: both limits must be above zero and something must
    /// be watched. The first fault found, in that order, is reported.
    pub fn validate(&self) -> (checked: Result<(), ConfigError>)
        ensures
            match self.fault() {
                None => checked is Ok,
                Some(ConfigFault::FunctionSize) => checked matches Err(
                    ConfigError::ValueTooSmall(setting, value, least),
                ) && setting@ == "max_function_size"@ && value == 0 && least == 0,
                Some(ConfigFault::Complexity) => checked matches Err(
                    ConfigError::ValueTooSmall(setting, value, least),
                ) && setting@ == "max_complexity"@ && value == 0 && least == 0,
                Some(ConfigFault::WatchFiles) => checked matches Err(
                    ConfigError::MissingWatchFiles,
                ),
            },
    {
        if self.max_function_size == 0 {
            return Err(
                ConfigError::ValueTooSmall(
                    String::from_str("max_function_size"),
                    self.max_function_size,
                    0,
                ),
            );
        }
        if self.max_complexity == 0 {
            return Err(
                ConfigError::ValueTooSmall(
                    String::from_str("max_complexity"),
                    self.max_complexity,
                    0,
                ),
            );
        }
        if self.watch_files.len() == 0 {
            return Err(ConfigError::MissingWatchFiles);
        }
        Ok(())
    }
}

/// The settings that `validate` finds fault with.
pub enum ConfigFault {
    /// The largest function size is zero.
    FunctionSize,
    /// The largest complexity is zero.
    Complexity,
    /// The list of watched extensions is empty.
    WatchFiles,
}

} // verus!
