//! The typed configuration of the client and of the server.

use vstd::prelude::*;
use vstd::string::StringExecFns;
use crate::text::{decimal_i64, decimal_of, decimal_u64, digits_of};
use crate::wake_mode::WakeMode;

verus! {

/// The client's configuration.
#[derive(Debug, Clone)]
pub struct Config {
    /// Hardware address of the device.
    pub nas_mac: String,
    /// IPv4 address of the device.
    pub nas_ip: String,
    /// IPv4 address of the router.
    pub router_ip: String,
    /// URL that heartbeats are posted to.
    pub heartbeat_url: String,
    /// Seconds between two ticks.
    pub check_interval_secs: u64,
    /// Minutes without input after which the user counts as idle.
    pub idle_threshold_mins: u32,
    /// Seconds after which a heartbeat request is given up.
    pub heartbeat_timeout_secs: u64,
    /// The wake policy.
    pub wake_mode: WakeMode,
}

impl Default for Config {
    fn default() -> (config: Config)
        ensures
            config.nas_mac@ == "00:08:9B:DB:EF:9A"@,
            config.nas_ip@ == "192.168.42.2"@,
            config.router_ip@ == "192.168.42.1"@,
            config.heartbeat_url@ == "http://192.168.42.2:8090/heartbeat"@,
            config.check_interval_secs == 60,
            config.idle_threshold_mins == 5,
            config.heartbeat_timeout_secs == 5,
            config.wake_mode == WakeMode::Auto,
    {
        Config {
            nas_mac: "00:08:9B:DB:EF:9A".to_owned(),
            nas_ip: "192.168.42.2".to_owned(),
            router_ip: "192.168.42.1".to_owned(),
            heartbeat_url: "http://192.168.42.2:8090/heartbeat".to_owned(),
            check_interval_secs: 60,
            idle_threshold_mins: 5,
            heartbeat_timeout_secs: 5,
            wake_mode: WakeMode::Auto,
        }
    }
}

/// The server's configuration.
#[derive(Debug, Clone)]
pub struct ServerConfig {
    /// Address and port that the server listens on.
    pub bind_address: String,
    /// Minutes without live clients after which the device is powered off.
    pub shutdown_delay_mins: i64,
    /// Path of the keepalive marker.
    pub keepalive_file: String,
    /// Text that marks a protected process in the process listing.
    pub backup_process_pattern: String,
    /// Minutes after which a client that sent no heartbeat is evicted.
    pub heartbeat_timeout_mins: i64,
    /// Seconds between two sweeps.
    pub check_interval_secs: u64,
}

impl Default for ServerConfig {
    fn default() -> (config: ServerConfig)
        ensures
            config.bind_address@ == "0.0.0.0:8090"@,
            config.shutdown_delay_mins == 10,
            config.keepalive_file@ == "/share/Public/keepalive.txt"@,
            config.backup_process_pattern@
                == "python /share/CACHEDEV1_DATA/.qpkg/AzureStorage/bin/engine.pyc backup"@,
            config.heartbeat_timeout_mins == 2,
            config.check_interval_secs == 60,
    {
        ServerConfig {
            bind_address: "0.0.0.0:8090".to_owned(),
            shutdown_delay_mins: 10,
            keepalive_file: "/share/Public/keepalive.txt".to_owned(),
            backup_process_pattern:
                "python /share/CACHEDEV1_DATA/.qpkg/AzureStorage/bin/engine.pyc backup".to_owned(),
            heartbeat_timeout_mins: 2,
            check_interval_secs: 60,
        }
    }
}

/// The text of a fresh client configuration file: every setting but the
/// wake mode, which a file may leave out.
pub open spec fn client_config_yaml(config: Config) -> Seq<char> {
    "nas_mac: \""@ + config.nas_mac@ + "\"\nnas_ip: \""@ + config.nas_ip@
        + "\"\nrouter_ip: \""@ + config.router_ip@ + "\"\nheartbeat_url: \""@
        + config.heartbeat_url@ + "\"\ncheck_interval_secs: "@ + digits_of(
        config.check_interval_secs as nat,
    ) + "\nidle_threshold_mins: "@ + digits_of(config.idle_threshold_mins as nat)
        + "\nheartbeat_timeout_secs: "@ + digits_of(config.heartbeat_timeout_secs as nat) + "\n"@
}

/// Writes the text of a client configuration file.
pub fn client_config_text(config: &Config) -> (text: String)
    ensures
        text@ == client_config_yaml(*config),
{
    let mut text = String::from_str("nas_mac: \"");
    text.append(config.nas_mac.as_str());
    text.append("\"\nnas_ip: \"");
    text.append(config.nas_ip.as_str());
    text.append("\"\nrouter_ip: \"");
    text.append(config.router_ip.as_str());
    text.append("\"\nheartbeat_url: \"");
    text.append(config.heartbeat_url.as_str());
    text.append("\"\ncheck_interval_secs: ");
    text.append(decimal_u64(config.check_interval_secs).as_str());
    text.append("\nidle_threshold_mins: ");
    text.append(decimal_u64(config.idle_threshold_mins as u64).as_str());
    text.append("\nheartbeat_timeout_secs: ");
    text.append(decimal_u64(config.heartbeat_timeout_secs).as_str());
    text.append("\n");
    text
}

/// The text of a server configuration file.
pub open spec fn server_config_yaml(config: ServerConfig) -> Seq<char> {
    "bind_address: \""@ + config.bind_address@ + "\"\nshutdown_delay_mins: "@ + decimal_of(
        config.shutdown_delay_mins as int,
    ) + "\nkeepalive_file: \""@ + config.keepalive_file@ + "\"\nbackup_process_pattern: \""@
        + config.backup_process_pattern@ + "\"\nheartbeat_timeout_mins: "@ + decimal_of(
        config.heartbeat_timeout_mins as int,
    ) + "\ncheck_interval_secs: "@ + digits_of(config.check_interval_secs as nat) + "\n"@
}

/// Writes the text of a server configuration file.
pub fn server_config_text(config: &ServerConfig) -> (text: String)
    ensures
        text@ == server_config_yaml(*config),
{
    let mut text = String::from_str("bind_address: \"");
    text.append(config.bind_address.as_str());
    text.append("\"\nshutdown_delay_mins: ");
    text.append(decimal_i64(config.shutdown_delay_mins).as_str());
    text.append("\nkeepalive_file: \"");
    text.append(config.keepalive_file.as_str());
    text.append("\"\nbackup_process_pattern: \"");
    text.append(config.backup_process_pattern.as_str());
    text.append("\"\nheartbeat_timeout_mins: ");
    text.append(decimal_i64(config.heartbeat_timeout_mins).as_str());
    text.append("\ncheck_interval_secs: ");
    text.append(decimal_u64(config.check_interval_secs).as_str());
    text.append("\n");
    text
}

} // verus!
