//! The logger's settings.

use vstd::prelude::*;
use vstd::string::*;

verus! {

/// The settings as the user gives them. Every setting may be left out.
#[derive(Debug, Clone)]
pub struct Config {
    /// `txt` or `json`.
    pub log_type: Option<String>,
    /// The log file's name, without extension.
    pub file_name: Option<String>,
    /// The least severity that is logged.
    pub min_level: Option<String>,
    /// Whether records go to the file rather than to standard output.
    pub to_file: Option<bool>,
}

/// The settings in force.
#[derive(Debug, Clone)]
pub struct FinalConfig {
    pub log_type: String,
    pub file_name: String,
    pub min_level: String,
    pub to_file: bool,
}

/// Why the settings could not be loaded.
#[derive(Debug)]
pub enum ConfigError {
    /// The file could not be read; the text says why.
    Io(String),
    /// The file is not well-formed TOML or does not hold the settings; the
    /// text says why.
    Toml(String),
}

/// What was found at the path of the settings file.
#[derive(Debug)]
pub enum ConfigFile {
    /// The file could not be read; the text says why.
    Unreadable(String),
    /// The file was read and could not be parsed; the text says why.
    Malformed(String),
    /// The settings of the file.
    Parsed(Config),
}

/// The text of an optional setting, or the default.
pub open spec fn text_or(value: Option<String>, fallback: Seq<char>) -> Seq<char> {
    match value {
        Some(text) => text@,
        None => fallback,
    }
}

fn setting_or(value: Option<String>, fallback: &str) -> (text: String)
    ensures
        text@ == text_or(value, fallback@),
{
    match value {
        Some(text) => text,
        None => String::from_str(fallback),
    }
}

impl Config {
    /// The settings of the settings file, from what was found at its path.
    /// A file that cannot be read and a file that cannot be parsed are
    /// errors of their own.
    pub fn from_file(found: ConfigFile) -> (loaded: Result<Config, ConfigError>)
        ensures
            match found {
                ConfigFile::Unreadable(reason) => loaded matches Err(ConfigError::Io(why)) && why
                    == reason,
                ConfigFile::Malformed(reason) => loaded matches Err(ConfigError::Toml(why))
                    && why == reason,
                ConfigFile::Parsed(settings) => loaded == Ok::<Config, ConfigError>(settings),
            },
    {
        match found {
            ConfigFile::Unreadable(reason) => Err(ConfigError::Io(reason)),
            ConfigFile::Malformed(reason) => Err(ConfigError::Toml(reason)),
            ConfigFile::Parsed(settings) => Ok(settings),
        }
    }

    /// Fills in the defaults: records are lines of text, the file is named
    /// `log`, everything from `info` up is logged, and records go to the
    /// file.
    pub fn finalize(self) -> (settings: FinalConfig)
        ensures
            settings.log_type@ == text_or(self.log_type, "txt"@),
            settings.file_name@ == text_or(self.file_name, "log"@),
            settings.min_level@ == text_or(self.min_level, "info"@),
            settings.to_file == match self.to_file {
                Some(to_file) => to_file,
                None => true,
            },
    {
        FinalConfig {
            log_type: setting_or(self.log_type, "txt"),
            file_name: setting_or(self.file_name, "log"),
            min_level: setting_or(self.min_level, "info"),
            to_file: match self.to_file {
                Some(to_file) => to_file,
                None => true,
            },
        }
    }

    /// The settings used where no settings file can be read: lines of text
    /// on standard output.
    pub fn fallback() -> (settings: Config)
        ensures
            settings.log_type matches Some(log_type) && log_type@ == "txt"@,
            settings.file_name matches Some(file_name) && file_name@ == "grumpy_clippy_log"@,
            settings.min_level matches Some(min_level) && min_level@ == "info"@,
            settings.to_file == Some(false),
    {
        Config {
            log_type: Some(String::from_str("txt")),
            file_name: Some(String::from_str("grumpy_clippy_log")),
            min_level: Some(String::from_str("info")),
            to_file: Some(false),
        }
    }
}

impl FinalConfig {
    /// Records are JSON objects.
    pub open spec fn is_json(self) -> bool {
        self.log_type@ == "json"@
    }

    /// The log type is one of the two that are known.
    pub open spec fn has_known_log_type(self) -> bool {
        self.log_type@ == "json"@ || self.log_type@ == "txt"@
    }

    /// Tests `has_known_log_type`.
    pub fn knows_log_type(&self) -> (known: bool)
        ensures
            known == self.has_known_log_type(),
    {
        let json = String::from_str("json");
        let txt = String::from_str("txt");
        self.log_type == json || self.log_type == txt
    }
}

} // verus!
