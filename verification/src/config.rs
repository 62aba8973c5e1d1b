//! Settings that a configuration file may give, and the errors of the
//! configuration.

use crate::text::{decimal, lowercase, push_decimal, same_text, to_lowercase};
use vstd::prelude::*;
use vstd::string::*;

verus! {

/// The tone of the messages. It selects the wording and nothing else.
#[derive(Debug, Clone, Copy, PartialEq, Eq, Structural)]
pub enum GrumpinessLevel {
    Mild,
    Sarcastic,
    Rude,
}

/// How the output is rendered.
#[derive(Debug, Clone, Copy, PartialEq, Eq, Structural)]
pub enum OutputFormat {
    Txt,
    Json,
    Fancy,
}

/// When the repository's history is consulted.
#[derive(Debug, Clone, Copy, PartialEq, Eq, Structural)]
pub enum GitIntegrationMode {
    Always,
    OnCommit,
    OnPush,
    Never,
}

/// What can be wrong with the configuration.
#[derive(Debug)]
pub enum ConfigError {
    /// No file at this path.
    FileNotFoundError(String),
    /// The file at this path could not be read or parsed; the second field
    /// says why.
    InvalidFile(String, String),
    /// The named setting has the first value, which is not above the second.
    ValueTooSmall(String, u8, u8),
    /// Nothing is watched.
    MissingWatchFiles,
    /// No grumpiness level has this name.
    InvalidGrumpinessLevel(String),
    /// No git integration mode has this name.
    InvalidGitIntegrationMode(String),
    /// No output format has this name.
    InvalidOutputFormat(String),
}

impl GrumpinessLevel {
    /// The level that a lower-case name stands for.
    pub open spec fn named(lowered: Seq<char>) -> Option<GrumpinessLevel> {
        if lowered == "mild"@ {
            Some(GrumpinessLevel::Mild)
        } else if lowered == "sarcastic"@ {
            Some(GrumpinessLevel::Sarcastic)
        } else if lowered == "rude"@ {
            Some(GrumpinessLevel::Rude)
        } else {
            None
        }
    }

    /// The variant's name.
    pub open spec fn name_text(self) -> Seq<char> {
        match self {
            GrumpinessLevel::Mild => "Mild"@,
            GrumpinessLevel::Sarcastic => "Sarcastic"@,
            GrumpinessLevel::Rude => "Rude"@,
        }
    }

    /// The variant's name, as it is displayed.
    pub fn name(&self) -> (name: &'static str)
        ensures
            name@ == self.name_text(),
    {
        match self {
            GrumpinessLevel::Mild => "Mild",
            GrumpinessLevel::Sarcastic => "Sarcastic",
            GrumpinessLevel::Rude => "Rude",
        }
    }

    /// Reads a level from `lowered`, the lower-case form of what was given as
    /// `raw`. The error carries `raw`.
    pub fn from_lowercase(lowered: &str, raw: &str) -> (parsed: Result<GrumpinessLevel, ConfigError>)
        ensures
            match Self::named(lowered@) {
                Some(level) => parsed == Ok::<GrumpinessLevel, ConfigError>(level),
                None => parsed matches Err(ConfigError::InvalidGrumpinessLevel(given)) && given@
                    == raw@,
            },
    {
        if same_text(lowered, "mild") {
            Ok(GrumpinessLevel::Mild)
        } else if same_text(lowered, "sarcastic") {
            Ok(GrumpinessLevel::Sarcastic)
        } else if same_text(lowered, "rude") {
            Ok(GrumpinessLevel::Rude)
        } else {
            Err(ConfigError::InvalidGrumpinessLevel(String::from_str(raw)))
        }
    }

    /// Reads a level from its name, whatever the case of its letters.
    pub fn parse(raw: &str) -> (parsed: Result<GrumpinessLevel, ConfigError>)
        ensures
            match Self::named(lowercase(raw@)) {
                Some(level) => parsed == Ok::<GrumpinessLevel, ConfigError>(level),
                None => parsed matches Err(ConfigError::InvalidGrumpinessLevel(given)) && given@
                    == raw@,
            },
    {
        let lowered = to_lowercase(raw);
        Self::from_lowercase(lowered.as_str(), raw)
    }
}

impl core::str::FromStr for GrumpinessLevel {
    type Err = ConfigError;

    fn from_str(s: &str) -> (parsed: Result<Self, Self::Err>)
        ensures
            match Self::named(lowercase(s@)) {
                Some(level) => parsed == Ok::<GrumpinessLevel, ConfigError>(level),
                None => parsed matches Err(ConfigError::InvalidGrumpinessLevel(given)) && given@
                    == s@,
            },
    {
        GrumpinessLevel::parse(s)
    }
}

impl OutputFormat {
    /// The format that a lower-case name stands for.
    pub open spec fn named(lowered: Seq<char>) -> Option<OutputFormat> {
        if lowered == "txt"@ {
            Some(OutputFormat::Txt)
        } else if lowered == "json"@ {
            Some(OutputFormat::Json)
        } else if lowered == "fancy"@ {
            Some(OutputFormat::Fancy)
        } else {
            None
        }
    }

    /// The variant's name.
    pub open spec fn name_text(self) -> Seq<char> {
        match self {
            OutputFormat::Txt => "Txt"@,
            OutputFormat::Json => "Json"@,
            OutputFormat::Fancy => "Fancy"@,
        }
    }

    /// The variant's name, as it is displayed.
    pub fn name(&self) -> (name: &'static str)
        ensures
            name@ == self.name_text(),
    {
        match self {
            OutputFormat::Txt => "Txt",
            OutputFormat::Json => "Json",
            OutputFormat::Fancy => "Fancy",
        }
    }

    /// Reads a format from `lowered`, the lower-case form of what was given
    /// as `raw`. The error carries `raw`.
    pub fn from_lowercase(lowered: &str, raw: &str) -> (parsed: Result<OutputFormat, ConfigError>)
        ensures
            match Self::named(lowered@) {
                Some(format) => parsed == Ok::<OutputFormat, ConfigError>(format),
                None => parsed matches Err(ConfigError::InvalidOutputFormat(given)) && given@
                    == raw@,
            },
    {
        if same_text(lowered, "txt") {
            Ok(OutputFormat::Txt)
        } else if same_text(lowered, "json") {
            Ok(OutputFormat::Json)
        } else if same_text(lowered, "fancy") {
            Ok(OutputFormat::Fancy)
        } else {
            Err(ConfigError::InvalidOutputFormat(String::from_str(raw)))
        }
    }

    /// Reads a format from its name, whatever the case of its letters.
    pub fn parse(raw: &str) -> (parsed: Result<OutputFormat, ConfigError>)
        ensures
            match Self::named(lowercase(raw@)) {
                Some(format) => parsed == Ok::<OutputFormat, ConfigError>(format),
                None => parsed matches Err(ConfigError::InvalidOutputFormat(given)) && given@
                    == raw@,
            },
    {
        let lowered = to_lowercase(raw);
        Self::from_lowercase(lowered.as_str(), raw)
    }
}

impl core::str::FromStr for OutputFormat {
    type Err = ConfigError;

    fn from_str(s: &str) -> (parsed: Result<Self, Self::Err>)
        ensures
            match Self::named(lowercase(s@)) {
                Some(format) => parsed == Ok::<OutputFormat, ConfigError>(format),
                None => parsed matches Err(ConfigError::InvalidOutputFormat(given)) && given@
                    == s@,
            },
    {
        OutputFormat::parse(s)
    }
}

impl GitIntegrationMode {
    /// The mode that a lower-case name stands for.
    pub open spec fn named(lowered: Seq<char>) -> Option<GitIntegrationMode> {
        if lowered == "always"@ {
            Some(GitIntegrationMode::Always)
        } else if lowered == "on_commit"@ {
            Some(GitIntegrationMode::OnCommit)
        } else if lowered == "on_push"@ {
            Some(GitIntegrationMode::OnPush)
        } else if lowered == "never"@ {
            Some(GitIntegrationMode::Never)
        } else {
            None
        }
    }

    /// The variant's name.
    pub open spec fn name_text(self) -> Seq<char> {
        match self {
            GitIntegrationMode::Always => "Always"@,
            GitIntegrationMode::OnCommit => "OnCommit"@,
            GitIntegrationMode::OnPush => "OnPush"@,
            GitIntegrationMode::Never => "Never"@,
        }
    }

    /// The variant's name, as it is displayed.
    pub fn name(&self) -> (name: &'static str)
        ensures
            name@ == self.name_text(),
    {
        match self {
            GitIntegrationMode::Always => "Always",
            GitIntegrationMode::OnCommit => "OnCommit",
            GitIntegrationMode::OnPush => "OnPush",
            GitIntegrationMode::Never => "Never",
        }
    }

    /// Reads a mode from `lowered`, the lower-case form of what was given as
    /// `raw`. The error carries `raw`.
    pub fn from_lowercase(lowered: &str, raw: &str) -> (parsed: Result<
        GitIntegrationMode,
        ConfigError,
    >)
        ensures
            match Self::named(lowered@) {
                Some(mode) => parsed == Ok::<GitIntegrationMode, ConfigError>(mode),
                None => parsed matches Err(ConfigError::InvalidGitIntegrationMode(given))
                    && given@ == raw@,
            },
    {
        if same_text(lowered, "always") {
            Ok(GitIntegrationMode::Always)
        } else if same_text(lowered, "on_commit") {
            Ok(GitIntegrationMode::OnCommit)
        } else if same_text(lowered, "on_push") {
            Ok(GitIntegrationMode::OnPush)
        } else if same_text(lowered, "never") {
            Ok(GitIntegrationMode::Never)
        } else {
            Err(ConfigError::InvalidGitIntegrationMode(String::from_str(raw)))
        }
    }

    /// Reads a mode from its name, whatever the case of its letters.
    pub fn parse(raw: &str) -> (parsed: Result<GitIntegrationMode, ConfigError>)
        ensures
            match Self::named(lowercase(raw@)) {
                Some(mode) => parsed == Ok::<GitIntegrationMode, ConfigError>(mode),
                None => parsed matches Err(ConfigError::InvalidGitIntegrationMode(given))
                    && given@ == raw@,
            },
    {
        let lowered = to_lowercase(raw);
        Self::from_lowercase(lowered.as_str(), raw)
    }
}

impl core::str::FromStr for GitIntegrationMode {
    type Err = ConfigError;

    fn from_str(s: &str) -> (parsed: Result<Self, Self::Err>)
        ensures
            match Self::named(lowercase(s@)) {
                Some(mode) => parsed == Ok::<GitIntegrationMode, ConfigError>(mode),
                None => parsed matches Err(ConfigError::InvalidGitIntegrationMode(given))
                    && given@ == s@,
            },
    {
        GitIntegrationMode::parse(s)
    }
}

/// What a configuration file holds. Every setting may be left out.
#[derive(Debug, Clone)]
pub struct FileConfig {
    pub grumpiness_level: Option<GrumpinessLevel>,
    pub verbose: Option<bool>,
    pub watch_files: Option<Vec<String>>,
    pub ignore_patterns: Option<Vec<String>>,
    pub max_function_size: Option<u8>,
    pub max_complexity: Option<u8>,
    pub print_color: Option<bool>,
    pub custom_rules: Option<String>,
    pub output_format: Option<OutputFormat>,
    pub git_integration: Option<GitIntegrationMode>,
    pub max_warnings: Option<u32>,
    pub rules_file: Option<String>,
}

/// What was found at the path of the configuration file.
#[derive(Debug)]
pub enum ConfigSource {
    /// Nothing is there.
    Missing,
    /// Something is there and could not be read; the text says why.
    Unreadable(String),
    /// The file was read and could not be parsed; the text says why.
    Malformed(String),
    /// The settings of the file.
    Parsed(FileConfig),
}

impl FileConfig {
    /// The settings of the configuration file at `path`, from what was
    /// found there. A missing file is an error, and so is one that cannot be
    /// read or parsed; both carry the path.
    pub fn from_file(path: &str, found: ConfigSource) -> (loaded: Result<FileConfig, ConfigError>)
        ensures
            match found {
                ConfigSource::Missing => loaded matches Err(ConfigError::FileNotFoundError(at))
                    && at@ == path@,
                ConfigSource::Unreadable(reason) => loaded matches Err(
                    ConfigError::InvalidFile(at, why),
                ) && at@ == path@ && why@ == reason@,
                ConfigSource::Malformed(reason) => loaded matches Err(
                    ConfigError::InvalidFile(at, why),
                ) && at@ == path@ && why@ == reason@,
                ConfigSource::Parsed(settings) => loaded == Ok::<FileConfig, ConfigError>(
                    settings,
                ),
            },
    {
        match found {
            ConfigSource::Missing => Err(ConfigError::FileNotFoundError(String::from_str(path))),
            ConfigSource::Unreadable(reason) => Err(
                ConfigError::InvalidFile(String::from_str(path), reason),
            ),
            ConfigSource::Malformed(reason) => Err(
                ConfigError::InvalidFile(String::from_str(path), reason),
            ),
            ConfigSource::Parsed(settings) => Ok(settings),
        }
    }
}

impl ConfigError {
    /// The sentence that reports the error.
    pub open spec fn message_text(self) -> Seq<char> {
        match self {
            ConfigError::FileNotFoundError(path) => "File '"@ + path@ + "' could not be found"@,
            ConfigError::InvalidFile(path, reason) => "File '"@ + path@
                + "' seems to be invalid. Error: "@ + reason@,
            ConfigError::InvalidGrumpinessLevel(given) =>
                "GrumpinessLevel must be 'mild', 'sarcastic', or 'rude', but got "@ + given@,
            ConfigError::InvalidOutputFormat(given) =>
                "OutputFormat must be 'txt', 'json', or 'fancy', but got "@ + given@,
            ConfigError::InvalidGitIntegrationMode(given) =>
                "GitIntegration must be 'never', 'always', 'onpush' or 'oncommit', but got "@
                    + given@,
            ConfigError::ValueTooSmall(setting, value, least) => setting@
                + " must be greater than "@ + decimal(least as nat) + ", but got "@ + decimal(
                value as nat,
            ),
            ConfigError::MissingWatchFiles => "Watch files shall not be empty!"@,
        }
    }

    /// Writes the sentence that reports the error.
    pub fn message(&self) -> (message: String)
        ensures
            message@ == self.message_text(),
    {
        match self {
            ConfigError::FileNotFoundError(path) => {
                let mut message = String::from_str("File '");
                message.append(path.as_str());
                message.append("' could not be found");
                message
            },
            ConfigError::InvalidFile(path, reason) => {
                let mut message = String::from_str("File '");
                message.append(path.as_str());
                message.append("' seems to be invalid. Error: ");
                message.append(reason.as_str());
                message
            },
            ConfigError::InvalidGrumpinessLevel(given) => {
                let mut message = String::from_str(
                    "GrumpinessLevel must be 'mild', 'sarcastic', or 'rude', but got ",
                );
                message.append(given.as_str());
                message
            },
            ConfigError::InvalidOutputFormat(given) => {
                let mut message = String::from_str(
                    "OutputFormat must be 'txt', 'json', or 'fancy', but got ",
                );
                message.append(given.as_str());
                message
            },
            ConfigError::InvalidGitIntegrationMode(given) => {
                let mut message = String::from_str(
                    "GitIntegration must be 'never', 'always', 'onpush' or 'oncommit', but got ",
                );
                message.append(given.as_str());
                message
            },
            ConfigError::ValueTooSmall(setting, value, least) => {
                let mut message = String::from_str(setting.as_str());
                message.append(" must be greater than ");
                push_decimal(&mut message, *least as usize);
                message.append(", but got ");
                push_decimal(&mut message, *value as usize);
                message
            },
            ConfigError::MissingWatchFiles => String::from_str("Watch files shall not be empty!"),
        }
    }
}

} // verus!
