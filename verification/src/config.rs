//! The configuration: which lookup services and DNS providers to use, how
//! often, and the settings of each provider.

use vstd::prelude::*;
use vstd::string::*;

use crate::dns_provider::dynv6_com::{ConfigDynv6Com, ConfigDynv6ComView};
use crate::dns_provider::name_com::{ConfigNameCom, ConfigNameComView};
use crate::text::{same_text, text_result, texts};

verus! {

/// The configuration of the updater. It is read once and not changed.
#[derive(Debug, PartialEq, Eq)]
pub struct Config {
    /// The names of the DNS providers to update.
    pub dns_provider: Vec<String>,
    /// The names of the lookup services to ask, the preferred one first.
    pub ip_provider: Vec<String>,
    /// The time from one cycle to the next, in seconds.
    pub interval: u32,
    /// The settings for name.com, where it is used.
    pub name_com: Option<ConfigNameCom>,
    /// The settings for dynv6.com, where it is used.
    pub dynv6_com: Option<ConfigDynv6Com>,
}

/// What a [`Config`] holds, as sequences of characters.
pub struct ConfigView {
    pub dns_provider: Seq<Seq<char>>,
    pub ip_provider: Seq<Seq<char>>,
    pub interval: u32,
    pub name_com: Option<ConfigNameComView>,
    pub dynv6_com: Option<ConfigDynv6ComView>,
}

impl View for Config {
    type V = ConfigView;

    open spec fn view(&self) -> ConfigView {
        ConfigView {
            dns_provider: texts(self.dns_provider@),
            ip_provider: texts(self.ip_provider@),
            interval: self.interval,
            name_com: match self.name_com {
                Some(conf) => Some(conf@),
                None => None,
            },
            dynv6_com: match self.dynv6_com {
                Some(conf) => Some(conf@),
                None => None,
            },
        }
    }
}

/// The formats in which a configuration can be written.
#[derive(Debug, Clone, Copy, PartialEq, Eq, Structural)]
pub enum ConfigFormat {
    Json,
    Toml,
    Yaml,
}

/// The format that the extension of a file's name stands for.
pub open spec fn format_of_extension(extension: Option<Seq<char>>) -> Option<ConfigFormat> {
    match extension {
        None => None,
        Some(e) => if e == "json"@ {
            Some(ConfigFormat::Json)
        } else if e == "toml"@ {
            Some(ConfigFormat::Toml)
        } else if e == "yaml"@ {
            Some(ConfigFormat::Yaml)
        } else {
            None
        },
    }
}

impl ConfigFormat {
    /// Finds the format that the extension of a file's name stands for.
    pub fn of_extension(extension: &Option<String>) -> (r: Option<ConfigFormat>)
        ensures
            r == format_of_extension(crate::text::optional_text(*extension)),
    {
        match extension {
            None => None,
            Some(e) => {
                if same_text(e.as_str(), "json") {
                    Some(ConfigFormat::Json)
                } else if same_text(e.as_str(), "toml") {
                    Some(ConfigFormat::Toml)
                } else if same_text(e.as_str(), "yaml") {
                    Some(ConfigFormat::Yaml)
                } else {
                    None
                }
            },
        }
    }

    /// The name of the format, as it stands in messages.
    pub fn name(&self) -> (r: &'static str)
        ensures
            r@ == format_name(*self),
    {
        match self {
            ConfigFormat::Json => "json",
            ConfigFormat::Toml => "toml",
            ConfigFormat::Yaml => "yaml",
        }
    }
}

/// The name of a format, as it stands in messages.
pub open spec fn format_name(format: ConfigFormat) -> Seq<char> {
    match format {
        ConfigFormat::Json => "json"@,
        ConfigFormat::Toml => "toml"@,
        ConfigFormat::Yaml => "yaml"@,
    }
}

/// Why no configuration was loaded.
#[derive(Debug, PartialEq, Eq)]
pub enum ConfigError {
    /// The file at `path` could not be read, for this reason.
    Read { path: String, reason: String },
    /// The name of the file ends in none of the known extensions.
    UnsupportedFormat,
    /// The text is no configuration in this format, for this reason.
    Parse { format: ConfigFormat, reason: String },
}

/// What a [`ConfigError`] holds, as sequences of characters.
pub enum ConfigErrorView {
    Read { path: Seq<char>, reason: Seq<char> },
    UnsupportedFormat,
    Parse { format: ConfigFormat, reason: Seq<char> },
}

impl View for ConfigError {
    type V = ConfigErrorView;

    open spec fn view(&self) -> ConfigErrorView {
        match *self {
            ConfigError::Read { path, reason } => ConfigErrorView::Read {
                path: path@,
                reason: reason@,
            },
            ConfigError::UnsupportedFormat => ConfigErrorView::UnsupportedFormat,
            ConfigError::Parse { format, reason } => ConfigErrorView::Parse {
                format,
                reason: reason@,
            },
        }
    }
}

/// The words in which a failure to load the configuration is reported.
pub open spec fn config_error_text(error: ConfigErrorView) -> Seq<char> {
    match error {
        ConfigErrorView::Read { path, reason } => "[config::load_config] Read file failed. (path: "@
            + path + ", error: "@ + reason + ")"@,
        ConfigErrorView::UnsupportedFormat => "[config::load_config] Only .json, .toml and .yaml format is supported."@,
        ConfigErrorView::Parse { format, reason } => "[config::load_config] Parse "@ + format_name(
            format,
        ) + " failed. (error: "@ + reason + ")"@,
    }
}

impl ConfigError {
    /// The words in which the failure is reported.
    pub fn message(&self) -> (r: String)
        ensures
            r@ == config_error_text(self@),
    {
        match self {
            ConfigError::Read { path, reason } => {
                let mut out = String::from_str("[config::load_config] Read file failed. (path: ");
                out.append(path.as_str());
                out.append(", error: ");
                out.append(reason.as_str());
                out.append(")");
                out
            },
            ConfigError::UnsupportedFormat => String::from_str(
                "[config::load_config] Only .json, .toml and .yaml format is supported.",
            ),
            ConfigError::Parse { format, reason } => {
                let mut out = String::from_str("[config::load_config] Parse ");
                out.append(format.name());
                out.append(" failed. (error: ");
                out.append(reason.as_str());
                out.append(")");
                out
            },
        }
    }
}

/// The text of a configuration and the format to read it in, or the reason
/// why there is none.
pub open spec fn text_to_parse(
    config_path: Seq<char>,
    read: Result<Seq<char>, Seq<char>>,
    extension: Option<Seq<char>>,
) -> Result<(ConfigFormat, Seq<char>), ConfigErrorView> {
    match read {
        Err(reason) => Err(ConfigErrorView::Read { path: config_path, reason }),
        Ok(text) => match format_of_extension(extension) {
            None => Err(ConfigErrorView::UnsupportedFormat),
            Some(format) => Ok((format, text)),
        },
    }
}

/// What the first part of loading a configuration holds.
pub open spec fn to_parse_view(r: Result<(ConfigFormat, String), ConfigError>) -> Result<
    (ConfigFormat, Seq<char>),
    ConfigErrorView,
> {
    match r {
        Ok((format, text)) => Ok((format, text@)),
        Err(e) => Err(e@),
    }
}

/// Decides how the file at `config_path` is to be read as a configuration.
/// `read` is what reading the file gave, its text or the reason why it could
/// not be read, and `extension` is the extension of the file's name. A file
/// that could not be read is reported first, whatever its name.
pub fn choose_format(config_path: &str, read: Result<String, String>, extension: &Option<String>) -> (r:
    Result<(ConfigFormat, String), ConfigError>)
    ensures
        to_parse_view(r) == text_to_parse(
            config_path@,
            text_result(read),
            crate::text::optional_text(*extension),
        ),
{
    match read {
        Err(reason) => Err(ConfigError::Read { path: String::from_str(config_path), reason }),
        Ok(text) => match ConfigFormat::of_extension(extension) {
            None => Err(ConfigError::UnsupportedFormat),
            Some(format) => Ok((format, text)),
        },
    }
}

/// The extension of the file that `path` names, as
/// `std::path::Path::extension` finds it where the library is built: the
/// part of the file's name behind its last dot, and none where the path
/// names no file or the name has no dot within.
pub uninterp spec fn extension_found(path: Seq<char>) -> Option<Seq<char>>;

/// Asks `std::path::Path::extension` for the extension of the file that
/// `path` names. The contract only gives the answer its name: nothing is
/// claimed of where the name of a file begins or of which dot parts the
/// extension from it.
#[verifier::external_body]
fn extension_of(path: &str) -> (r: Option<String>)
    ensures
        crate::text::optional_text(r) == extension_found(path@),
{
    std::path::Path::new(path).extension().and_then(|e| e.to_str()).map(|e| e.to_owned())
}

/// Begins to load the configuration from the file at `config_path`: `read`
/// is what reading the file gave, its text or the reason why it could not be
/// read. The answer is the text and the format in which it is to be read,
/// chosen by the extension of the file's name, or the reason why nothing can
/// be loaded.
pub fn load_config(config_path: &str, read: Result<String, String>) -> (r: Result<
    (ConfigFormat, String),
    ConfigError,
>)
    ensures
        to_parse_view(r) == text_to_parse(
            config_path@,
            text_result(read),
            extension_found(config_path@),
        ),
{
    let extension = extension_of(config_path);
    choose_format(config_path, read, &extension)
}

/// What the outcome of loading a configuration holds.
pub open spec fn loaded_view(r: Result<Config, ConfigError>) -> Result<ConfigView, ConfigErrorView> {
    match r {
        Ok(config) => Ok(config@),
        Err(e) => Err(e@),
    }
}

/// Ends the loading of a configuration: `parsed` is what reading the text
/// in `format` gave, the configuration or the reason why the text is none.
pub fn finish_load(format: ConfigFormat, parsed: Result<Config, String>) -> (r: Result<
    Config,
    ConfigError,
>)
    ensures
        loaded_view(r) == match parsed {
            Ok(config) => Ok::<ConfigView, ConfigErrorView>(config@),
            Err(reason) => Err::<ConfigView, ConfigErrorView>(
                ConfigErrorView::Parse { format, reason: reason@ },
            ),
        },
{
    match parsed {
        Ok(config) => Ok(config),
        Err(reason) => Err(ConfigError::Parse { format, reason }),
    }
}

} // verus!
