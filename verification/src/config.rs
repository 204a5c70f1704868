//! The settings of the server, and how they are merged from the command
//! line, the configuration file and the built-in defaults.

use vstd::prelude::*;
use vstd::string::*;
use crate::cli::opt_text;
use crate::error::{AppError, AppErrorView};

verus! {

/// What a configuration file may set. Every entry may be left out.
#[derive(Clone, Debug)]
pub struct ConfigFile {
    pub api_key: Option<String>,
    pub postal_code: Option<String>,
    pub species: Option<String>,
    pub miles: Option<u32>,
    pub timeout_seconds: Option<u64>,
    pub lazy: Option<bool>,
    pub rate_limit_requests: Option<u32>,
    pub rate_limit_window: Option<u64>,
}

/// What a `ConfigFile` stands for in contracts: its texts are sequences of
/// characters, its JSON documents their values.
pub struct ConfigFileView {
    pub api_key: Option<Seq<char>>,
    pub postal_code: Option<Seq<char>>,
    pub species: Option<Seq<char>>,
    pub miles: Option<u32>,
    pub timeout_seconds: Option<u64>,
    pub lazy: Option<bool>,
    pub rate_limit_requests: Option<u32>,
    pub rate_limit_window: Option<u64>,
}

impl View for ConfigFile {
    type V = ConfigFileView;

    open spec fn view(&self) -> ConfigFileView {
        ConfigFileView {
            api_key: opt_text(self.api_key),
            postal_code: opt_text(self.postal_code),
            species: opt_text(self.species),
            miles: self.miles,
            timeout_seconds: self.timeout_seconds,
            lazy: self.lazy,
            rate_limit_requests: self.rate_limit_requests,
            rate_limit_window: self.rate_limit_window,
        }
    }
}

impl ConfigFileView {
    /// The file that sets nothing.
    pub open spec fn empty() -> ConfigFileView {
        ConfigFileView {
            api_key: None,
            postal_code: None,
            species: None,
            miles: None,
            timeout_seconds: None,
            lazy: None,
            rate_limit_requests: None,
            rate_limit_window: None,
        }
    }
}

impl ConfigFile {
    /// The file that sets nothing.
    pub fn empty() -> (r: ConfigFile)
        ensures
            r@ == ConfigFileView::empty(),
    {
        ConfigFile {
            api_key: None,
            postal_code: None,
            species: None,
            miles: None,
            timeout_seconds: None,
            lazy: None,
            rate_limit_requests: None,
            rate_limit_window: None,
        }
    }
}

/// Everything the core needs to know to serve requests. The response cache
/// and the rate limiter are built from the numbers held here.
#[derive(Clone, Debug)]
pub struct Settings {
    pub api_key: String,
    pub base_url: String,
    pub default_postal_code: String,
    pub default_miles: u32,
    pub default_species: String,
    /// How long an upstream call may take, in seconds.
    pub timeout_seconds: u64,
    /// Whether `tools/list` shows the core tools only.
    pub lazy: bool,
    /// How many responses the cache keeps.
    pub cache_capacity: u64,
    /// How long a cached response stays valid, in seconds.
    pub cache_ttl_seconds: u64,
    /// The burst capacity of the rate limiter.
    pub rate_limit_requests: u32,
    /// The time in which the rate limiter regains one request, in seconds.
    pub rate_limit_window: u64,
}

/// What a `Settings` stands for in contracts: its texts are sequences of
/// characters, its JSON documents their values.
pub struct SettingsView {
    pub api_key: Seq<char>,
    pub base_url: Seq<char>,
    pub default_postal_code: Seq<char>,
    pub default_miles: u32,
    pub default_species: Seq<char>,
    pub timeout_seconds: u64,
    pub lazy: bool,
    pub cache_capacity: u64,
    pub cache_ttl_seconds: u64,
    pub rate_limit_requests: u32,
    pub rate_limit_window: u64,
}

impl View for Settings {
    type V = SettingsView;

    open spec fn view(&self) -> SettingsView {
        SettingsView {
            api_key: self.api_key@,
            base_url: self.base_url@,
            default_postal_code: self.default_postal_code@,
            default_miles: self.default_miles,
            default_species: self.default_species@,
            timeout_seconds: self.timeout_seconds,
            lazy: self.lazy,
            cache_capacity: self.cache_capacity,
            cache_ttl_seconds: self.cache_ttl_seconds,
            rate_limit_requests: self.rate_limit_requests,
            rate_limit_window: self.rate_limit_window,
        }
    }
}

pub const DEFAULT_MILES: u32 = 50;

pub const DEFAULT_TIMEOUT_SECONDS: u64 = 30;

pub const DEFAULT_RATE_LIMIT_REQUESTS: u32 = 60;

pub const DEFAULT_RATE_LIMIT_WINDOW: u64 = 60;

pub const CACHE_CAPACITY: u64 = 100;

pub const CACHE_TTL_SECONDS: u64 = 900;

/// `value`, and `default` where there is none.
pub open spec fn text_or_default(value: Option<Seq<char>>, default: Seq<char>) -> Seq<char> {
    match value {
        Some(s) => s,
        None => default,
    }
}

/// The burst capacity that a file asks for: 60 where it asks for none or
/// for zero.
pub open spec fn burst_of(requests: Option<u32>) -> u32 {
    match requests {
        Some(n) => if n == 0 {
            DEFAULT_RATE_LIMIT_REQUESTS
        } else {
            n
        },
        None => DEFAULT_RATE_LIMIT_REQUESTS,
    }
}

/// The settings that the command line's key, the file and the override of
/// the base URL give together. The key of the command line comes before the
/// file's; without either there are no settings.
pub open spec fn merged(
    cli_api_key: Option<Seq<char>>,
    file: ConfigFileView,
    base_url: Option<Seq<char>>,
) -> Option<SettingsView> {
    let api_key = if cli_api_key is Some {
        cli_api_key
    } else {
        file.api_key
    };
    match api_key {
        Some(key) => Some(
            SettingsView {
                api_key: key,
                base_url: text_or_default(base_url, "https://api.rescuegroups.org/v5"@),
                default_postal_code: text_or_default(file.postal_code, "90210"@),
                default_miles: match file.miles {
                    Some(m) => m,
                    None => DEFAULT_MILES,
                },
                default_species: text_or_default(file.species, "dogs"@),
                timeout_seconds: match file.timeout_seconds {
                    Some(t) => t,
                    None => DEFAULT_TIMEOUT_SECONDS,
                },
                lazy: match file.lazy {
                    Some(l) => l,
                    None => true,
                },
                cache_capacity: CACHE_CAPACITY,
                cache_ttl_seconds: CACHE_TTL_SECONDS,
                rate_limit_requests: burst_of(file.rate_limit_requests),
                rate_limit_window: match file.rate_limit_window {
                    Some(w) => w,
                    None => DEFAULT_RATE_LIMIT_WINDOW,
                },
            },
        ),
        None => None,
    }
}

fn or_default(value: Option<String>, default: &str) -> (r: String)
    ensures
        r@ == text_or_default(opt_text(value), default@),
{
    match value {
        Some(s) => s,
        None => String::from_str(default),
    }
}

/// Merges the API key of the command line, the entries of the configuration
/// file (`None` where there is no file, or one of a format that is not
/// read) and the override of the base URL into the settings of the server.
///
/// A rate-limit window of zero seconds is not a window.
pub fn merge_configuration(
    cli_api_key: Option<String>,
    file_config: Option<ConfigFile>,
    base_url: Option<String>,
) -> (r: Result<Settings, AppError>)
    requires
        file_config matches Some(f) ==> f.rate_limit_window != Some(0u64),
    ensures
        match r {
            Ok(settings) => merged(
                opt_text(cli_api_key),
                match file_config {
                    Some(f) => f@,
                    None => ConfigFileView::empty(),
                },
                opt_text(base_url),
            ) == Some(settings@) && settings.rate_limit_requests > 0 && settings.rate_limit_window
                > 0,
            Err(e) => merged(
                opt_text(cli_api_key),
                match file_config {
                    Some(f) => f@,
                    None => ConfigFileView::empty(),
                },
                opt_text(base_url),
            ) is None && e@ == AppErrorView::ConfigError(
                "API Key is missing! Set RESCUE_GROUPS_API_KEY or use config.toml"@,
            ),
        },
{
    let file = match file_config {
        Some(f) => f,
        None => ConfigFile::empty(),
    };
    let api_key = match cli_api_key {
        Some(key) => Some(key),
        None => file.api_key,
    };
    let api_key = match api_key {
        Some(key) => key,
        None => {
            return Err(
                AppError::ConfigError(
                    String::from_str(
                        "API Key is missing! Set RESCUE_GROUPS_API_KEY or use config.toml",
                    ),
                ),
            );
        },
    };
    let rate_limit_requests = match file.rate_limit_requests {
        Some(n) => if n == 0 {
            DEFAULT_RATE_LIMIT_REQUESTS
        } else {
            n
        },
        None => DEFAULT_RATE_LIMIT_REQUESTS,
    };
    Ok(
        Settings {
            api_key,
            base_url: or_default(base_url, "https://api.rescuegroups.org/v5"),
            default_postal_code: or_default(file.postal_code, "90210"),
            default_miles: match file.miles {
                Some(m) => m,
                None => DEFAULT_MILES,
            },
            default_species: or_default(file.species, "dogs"),
            timeout_seconds: match file.timeout_seconds {
                Some(t) => t,
                None => DEFAULT_TIMEOUT_SECONDS,
            },
            lazy: match file.lazy {
                Some(l) => l,
                None => true,
            },
            cache_capacity: CACHE_CAPACITY,
            cache_ttl_seconds: CACHE_TTL_SECONDS,
            rate_limit_requests,
            rate_limit_window: match file.rate_limit_window {
                Some(w) => w,
                None => DEFAULT_RATE_LIMIT_WINDOW,
            },
        },
    )
}

/// The formats in which a configuration file is read.
#[derive(Clone, Copy, Debug, PartialEq, Eq, Structural)]
pub enum ConfigFormat {
    Toml,
    Json,
    Yaml,
    /// Any other file: it is not read.
    Unknown,
}

/// The format that a file's extension stands for.
pub open spec fn format_of(extension: Seq<char>) -> ConfigFormat {
    if extension == "toml"@ {
        ConfigFormat::Toml
    } else if extension == "json"@ {
        ConfigFormat::Json
    } else if extension == "yaml"@ || extension == "yml"@ {
        ConfigFormat::Yaml
    } else {
        ConfigFormat::Unknown
    }
}

/// The format in which a file with the given extension is read.
pub fn config_format(extension: &str) -> (r: ConfigFormat)
    ensures
        r == format_of(extension@),
{
    if extension.eq("toml") {
        ConfigFormat::Toml
    } else if extension.eq("json") {
        ConfigFormat::Json
    } else if extension.eq("yaml") || extension.eq("yml") {
        ConfigFormat::Yaml
    } else {
        ConfigFormat::Unknown
    }
}

} // verus!
