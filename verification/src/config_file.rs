//! The server's configuration file: where it lives and how its YAML text is read.

use vstd::prelude::*;
use crate::config::ServerConfig;

verus! {

/// Declares `yaml_rust2::Yaml`, a parsed YAML node, as an opaque type:
/// nothing is known of a value but what the functions below state.
#[verifier::external_type_specification]
#[verifier::external_body]
pub struct ExYaml(yaml_rust2::Yaml);

/// Declares `yaml_rust2::ScanError`, the loader's error, as an opaque type.
#[verifier::external_type_specification]
#[verifier::external_body]
pub struct ExScanError(yaml_rust2::ScanError);

/// The entries of a YAML document that is a mapping whose key is a string
/// and whose value is a string, by key. Empty for a document that is no mapping.
pub uninterp spec fn yaml_texts(document: yaml_rust2::Yaml) -> Map<Seq<char>, Seq<char>>;

/// The entries of a YAML document that is a mapping whose key is a string
/// and whose value is an integer, by key. Empty for a document that is no mapping.
pub uninterp spec fn yaml_integers(document: yaml_rust2::Yaml) -> Map<Seq<char>, i64>;

/// Where the server's configuration file lives on the device.
pub fn get_config_path() -> (path: String)
    ensures
        path@ == "/share/CACHEDEV1_DATA/.config/nas-boot/nas-boot-server-config.yaml"@,
{
    "/share/CACHEDEV1_DATA/.config/nas-boot/nas-boot-server-config.yaml".to_owned()
}

/// The YAML documents that a text holds, in order, or `None` where the text
/// is no YAML.
pub uninterp spec fn yaml_documents(text: Seq<char>) -> Option<Seq<yaml_rust2::Yaml>>;

/// Calls `yaml_rust2::YamlLoader::load_from_str`, which parses the text as a
/// run of YAML documents or refuses it as a whole. The contract only names
/// the result.
#[verifier::external_body]
fn load_documents(text: &str) -> (documents: Result<Vec<yaml_rust2::Yaml>, yaml_rust2::ScanError>)
    ensures
        documents is Ok <==> yaml_documents(text@) is Some,
        documents is Ok ==> documents->Ok_0@ == yaml_documents(text@)->Some_0,
{
    yaml_rust2::YamlLoader::load_from_str(text)
}

/// Indexes the document with a string key and calls `Yaml::as_str` on what
/// is found. Indexing gives `BadValue` for a document that is no mapping and
/// for a key that is absent, and `as_str` gives `Some` for a string value
/// only: so the result is the string entry under the key, if there is one.
#[verifier::external_body]
fn text_field(document: &yaml_rust2::Yaml, key: &str) -> (value: Option<String>)
    ensures
        value is Some <==> yaml_texts(*document).contains_key(key@),
        value is Some ==> value->Some_0@ == yaml_texts(*document)[key@],
{
    match document[key].as_str() {
        Some(text) => Some(text.to_owned()),
        None => None,
    }
}

/// Indexes the document with a string key and calls `Yaml::as_i64` on what
/// is found: the integer entry under the key, if there is one.
#[verifier::external_body]
fn integer_field(document: &yaml_rust2::Yaml, key: &str) -> (value: Option<i64>)
    ensures
        value is Some <==> yaml_integers(*document).contains_key(key@),
        value is Some ==> value->Some_0 == yaml_integers(*document)[key@],
{
    document[key].as_i64()
}

/// A field of the server's configuration.
#[derive(Debug, Clone, Copy, PartialEq, Eq, Structural)]
pub enum ConfigField {
    /// `bind_address`, a string.
    BindAddress,
    /// `shutdown_delay_mins`, an integer.
    ShutdownDelayMins,
    /// `keepalive_file`, a string.
    KeepaliveFile,
    /// `backup_process_pattern`, a string.
    BackupProcessPattern,
    /// `heartbeat_timeout_mins`, an integer.
    HeartbeatTimeoutMins,
    /// `check_interval_secs`, an integer.
    CheckIntervalSecs,
}

impl ConfigField {
    /// The field's key in the file.
    pub open spec fn key(self) -> Seq<char> {
        match self {
            ConfigField::BindAddress => "bind_address"@,
            ConfigField::ShutdownDelayMins => "shutdown_delay_mins"@,
            ConfigField::KeepaliveFile => "keepalive_file"@,
            ConfigField::BackupProcessPattern => "backup_process_pattern"@,
            ConfigField::HeartbeatTimeoutMins => "heartbeat_timeout_mins"@,
            ConfigField::CheckIntervalSecs => "check_interval_secs"@,
        }
    }

    /// The field's key in the file.
    pub fn name(self) -> (name: &'static str)
        ensures
            name@ == self.key(),
    {
        match self {
            ConfigField::BindAddress => "bind_address",
            ConfigField::ShutdownDelayMins => "shutdown_delay_mins",
            ConfigField::KeepaliveFile => "keepalive_file",
            ConfigField::BackupProcessPattern => "backup_process_pattern",
            ConfigField::HeartbeatTimeoutMins => "heartbeat_timeout_mins",
            ConfigField::CheckIntervalSecs => "check_interval_secs",
        }
    }
}

/// Why a configuration text was refused.
#[derive(Debug, Clone, Copy, PartialEq, Eq, Structural)]
pub enum ConfigError {
    /// The text is no YAML.
    Unreadable,
    /// The text holds no document.
    Empty,
    /// The first document lacks this field, or holds it with the wrong type.
    Missing(ConfigField),
}

/// The first field, in the order of the file, that is absent, given for
/// each field whether it is present.
pub open spec fn first_absent(
    bind_address: bool,
    shutdown_delay_mins: bool,
    keepalive_file: bool,
    backup_process_pattern: bool,
    heartbeat_timeout_mins: bool,
    check_interval_secs: bool,
) -> Option<ConfigField> {
    if !bind_address {
        Some(ConfigField::BindAddress)
    } else if !shutdown_delay_mins {
        Some(ConfigField::ShutdownDelayMins)
    } else if !keepalive_file {
        Some(ConfigField::KeepaliveFile)
    } else if !backup_process_pattern {
        Some(ConfigField::BackupProcessPattern)
    } else if !heartbeat_timeout_mins {
        Some(ConfigField::HeartbeatTimeoutMins)
    } else if !check_interval_secs {
        Some(ConfigField::CheckIntervalSecs)
    } else {
        None
    }
}

/// The first field, in the order of the file, that the entries lack.
pub open spec fn first_missing(
    texts: Map<Seq<char>, Seq<char>>,
    integers: Map<Seq<char>, i64>,
) -> Option<ConfigField> {
    first_absent(
        texts.contains_key(ConfigField::BindAddress.key()),
        integers.contains_key(ConfigField::ShutdownDelayMins.key()),
        texts.contains_key(ConfigField::KeepaliveFile.key()),
        texts.contains_key(ConfigField::BackupProcessPattern.key()),
        integers.contains_key(ConfigField::HeartbeatTimeoutMins.key()),
        integers.contains_key(ConfigField::CheckIntervalSecs.key()),
    )
}

/// A signed number of seconds as the unsigned interval it stands for: a
/// negative number counts down from two to the power of 64.
pub open spec fn interval_of(seconds: i64) -> u64 {
    if seconds >= 0 {
        seconds as u64
    } else {
        (seconds + 0x1_0000_0000_0000_0000) as u64
    }
}

/// Whether `config` holds exactly what the entries give.
pub open spec fn config_matches(
    config: ServerConfig,
    texts: Map<Seq<char>, Seq<char>>,
    integers: Map<Seq<char>, i64>,
) -> bool {
    &&& config.bind_address@ == texts[ConfigField::BindAddress.key()]
    &&& config.shutdown_delay_mins == integers[ConfigField::ShutdownDelayMins.key()]
    &&& config.keepalive_file@ == texts[ConfigField::KeepaliveFile.key()]
    &&& config.backup_process_pattern@ == texts[ConfigField::BackupProcessPattern.key()]
    &&& config.heartbeat_timeout_mins == integers[ConfigField::HeartbeatTimeoutMins.key()]
    &&& config.check_interval_secs == interval_of(integers[ConfigField::CheckIntervalSecs.key()])
}

fn interval_from(seconds: i64) -> (interval: u64)
    ensures
        interval == interval_of(seconds),
{
    if seconds >= 0 {
        seconds as u64
    } else {
        let below: u64 = (-(seconds + 1)) as u64;
        u64::MAX - below
    }
}

/// Builds the configuration from the six values as they were found, `None`
/// standing for a field that is absent or held with another type. Every
/// field is required; the first absent one is reported.
pub fn config_from_fields(
    bind_address: Option<String>,
    shutdown_delay_mins: Option<i64>,
    keepalive_file: Option<String>,
    backup_process_pattern: Option<String>,
    heartbeat_timeout_mins: Option<i64>,
    check_interval_secs: Option<i64>,
) -> (config: Result<ServerConfig, ConfigError>)
    ensures
        config is Ok <==> first_absent(
            bind_address is Some,
            shutdown_delay_mins is Some,
            keepalive_file is Some,
            backup_process_pattern is Some,
            heartbeat_timeout_mins is Some,
            check_interval_secs is Some,
        ) is None,
        config is Err ==> config->Err_0 == ConfigError::Missing(
            first_absent(
                bind_address is Some,
                shutdown_delay_mins is Some,
                keepalive_file is Some,
                backup_process_pattern is Some,
                heartbeat_timeout_mins is Some,
                check_interval_secs is Some,
            )->Some_0,
        ),
        config is Ok ==> {
            &&& config->Ok_0.bind_address@ == bind_address->Some_0@
            &&& config->Ok_0.shutdown_delay_mins == shutdown_delay_mins->Some_0
            &&& config->Ok_0.keepalive_file@ == keepalive_file->Some_0@
            &&& config->Ok_0.backup_process_pattern@ == backup_process_pattern->Some_0@
            &&& config->Ok_0.heartbeat_timeout_mins == heartbeat_timeout_mins->Some_0
            &&& config->Ok_0.check_interval_secs == interval_of(check_interval_secs->Some_0)
        },
{
    let bind_address = match bind_address {
        Some(value) => value,
        None => {
            return Err(ConfigError::Missing(ConfigField::BindAddress));
        },
    };
    let shutdown_delay_mins = match shutdown_delay_mins {
        Some(value) => value,
        None => {
            return Err(ConfigError::Missing(ConfigField::ShutdownDelayMins));
        },
    };
    let keepalive_file = match keepalive_file {
        Some(value) => value,
        None => {
            return Err(ConfigError::Missing(ConfigField::KeepaliveFile));
        },
    };
    let backup_process_pattern = match backup_process_pattern {
        Some(value) => value,
        None => {
            return Err(ConfigError::Missing(ConfigField::BackupProcessPattern));
        },
    };
    let heartbeat_timeout_mins = match heartbeat_timeout_mins {
        Some(value) => value,
        None => {
            return Err(ConfigError::Missing(ConfigField::HeartbeatTimeoutMins));
        },
    };
    let check_interval_secs = match check_interval_secs {
        Some(value) => interval_from(value),
        None => {
            return Err(ConfigError::Missing(ConfigField::CheckIntervalSecs));
        },
    };
    Ok(
        ServerConfig {
            bind_address,
            shutdown_delay_mins,
            keepalive_file,
            backup_process_pattern,
            heartbeat_timeout_mins,
            check_interval_secs,
        },
    )
}

/// Whether `config` is what a document gives: the configuration that holds
/// the document's entries, or the first field that the document lacks.
pub open spec fn document_gives(
    document: yaml_rust2::Yaml,
    config: Result<ServerConfig, ConfigError>,
) -> bool {
    let texts = yaml_texts(document);
    let integers = yaml_integers(document);
    match config {
        Ok(config) => first_missing(texts, integers) is None && config_matches(
            config,
            texts,
            integers,
        ),
        Err(error) => first_missing(texts, integers) is Some && error == ConfigError::Missing(
            first_missing(texts, integers)->Some_0,
        ),
    }
}

/// Builds the configuration from a parsed document: reads the six fields
/// and requires every one of them.
pub fn config_from_document(document: &yaml_rust2::Yaml) -> (config: Result<
    ServerConfig,
    ConfigError,
>)
    ensures
        document_gives(*document, config),
{
    config_from_fields(
        text_field(document, ConfigField::BindAddress.name()),
        integer_field(document, ConfigField::ShutdownDelayMins.name()),
        text_field(document, ConfigField::KeepaliveFile.name()),
        text_field(document, ConfigField::BackupProcessPattern.name()),
        integer_field(document, ConfigField::HeartbeatTimeoutMins.name()),
        integer_field(document, ConfigField::CheckIntervalSecs.name()),
    )
}

/// Reads the server's configuration from the text of its file: the first
/// YAML document of the text, with every field required.
pub fn parse_server_config(text: &str) -> (config: Result<ServerConfig, ConfigError>)
    ensures
        match yaml_documents(text@) {
            None => config is Err && config->Err_0 == ConfigError::Unreadable,
            Some(documents) => if documents.len() == 0 {
                config is Err && config->Err_0 == ConfigError::Empty
            } else {
                document_gives(documents[0], config)
            },
        },
{
    match load_documents(text) {
        Err(_) => Err(ConfigError::Unreadable),
        Ok(documents) => {
            if documents.len() == 0 {
                Err(ConfigError::Empty)
            } else {
                config_from_document(&documents[0])
            }
        },
    }
}

} // verus!
