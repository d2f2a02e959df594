//! The configuration of a node: its sections, their defaults, and how a
//! configuration is chosen from what files and the environment offer.

use vstd::prelude::*;
use crate::keyed::names;
use crate::text::text_of;

verus! {

/// Seconds that a handshake may take.
pub const DEFAULT_HANDSHAKE_TIMEOUT_SECS: u64 = 1;

/// Connections that one address may open in a minute.
pub const DEFAULT_MAX_CONN_PER_MIN: usize = 10;

/// Version of the stealth protocol.
pub const DEFAULT_STEALTH_VERSION: u8 = 0x01;

/// Handshakes that a peer may attempt.
pub const DEFAULT_MAX_HANDSHAKE_ATTEMPTS: usize = 3;

/// Seconds after which an idle connection is closed.
pub const DEFAULT_CONNECTION_TIMEOUT_SECS: u64 = 30;

/// The bytes that open a stealth handshake: `GWSTH`.
pub fn default_magic_bytes() -> (bytes: [u8; 5])
    ensures
        bytes@ == seq![0x47u8, 0x57u8, 0x53u8, 0x54u8, 0x48u8],
{
    [0x47, 0x57, 0x53, 0x54, 0x48]
}

/// Where the node listens, and which front ends it offers.
#[derive(Debug, Clone)]
pub struct ServerConfig {
    pub host: String,
    pub port: u16,
    pub web_enabled: bool,
    pub cli_enabled: bool,
}

/// Admission policy and key rotation, as the configuration file holds them.
#[derive(Debug, Clone)]
pub struct SecurityConfig {
    pub max_connections_per_ip: usize,
    pub max_messages_per_minute: usize,
    pub blacklist_enabled: bool,
    pub threat_detection_enabled: bool,
    pub allowed_ips: Vec<String>,
    pub blocked_ips: Vec<String>,
    pub key_rotation_interval_days: u64,
}

/// Which networks the node joins, and their limits.
#[derive(Debug, Clone, Copy, PartialEq, Eq, Structural)]
pub struct NetworkConfig {
    pub mesh_enabled: bool,
    pub reticulum_enabled: bool,
    pub briar_enabled: bool,
    pub stealth_tcp_enabled: bool,
    pub max_peers: usize,
    pub connection_timeout_secs: u64,
}

/// How messages are encrypted.
#[derive(Debug, Clone)]
pub struct EncryptionConfig {
    pub algorithm: String,
    pub key_size: usize,
    pub session_timeout_hours: u64,
}

/// Which bridges and front ends are switched on.
#[derive(Debug, Clone, Copy, PartialEq, Eq, Structural)]
pub struct FeatureFlags {
    pub matrix_bridge: bool,
    pub meshtastic_bridge: bool,
    pub web_ui: bool,
    pub cli: bool,
    pub api: bool,
}

/// The whole configuration of a node.
#[derive(Debug, Clone)]
pub struct Config {
    pub server: ServerConfig,
    pub security: SecurityConfig,
    pub network: NetworkConfig,
    pub encryption: EncryptionConfig,
    pub features: FeatureFlags,
}

/// Settings of the Matrix bridge.
#[derive(Debug, Clone)]
pub struct MatrixConfig {
    pub homeserver: String,
    pub user: String,
    pub access_token: String,
}

/// Settings of the Meshtastic bridge.
#[derive(Debug, Clone)]
pub struct MeshtasticConfig {
    pub device_path: String,
    pub channel: String,
}

/// What the environment offers to a configuration: the value of each
/// variable that is set, and for the two bridges whether theirs is set.
#[derive(Debug, Clone)]
pub struct Environment {
    pub host: Option<String>,
    pub port: Option<String>,
    pub max_connections_per_ip: Option<String>,
    pub matrix_bridge: bool,
    pub meshtastic_bridge: bool,
}

/// Mathematical value of a [`Config`].
pub struct ConfigModel {
    pub host: Seq<char>,
    pub port: u16,
    pub web_enabled: bool,
    pub cli_enabled: bool,
    pub max_connections_per_ip: usize,
    pub max_messages_per_minute: usize,
    pub blacklist_enabled: bool,
    pub threat_detection_enabled: bool,
    pub allowed_ips: Seq<Seq<char>>,
    pub blocked_ips: Seq<Seq<char>>,
    pub key_rotation_interval_days: u64,
    pub network: NetworkConfig,
    pub algorithm: Seq<char>,
    pub key_size: usize,
    pub session_timeout_hours: u64,
    pub features: FeatureFlags,
}

impl View for Config {
    type V = ConfigModel;

    open spec fn view(&self) -> ConfigModel {
        ConfigModel {
            host: self.server.host@,
            port: self.server.port,
            web_enabled: self.server.web_enabled,
            cli_enabled: self.server.cli_enabled,
            max_connections_per_ip: self.security.max_connections_per_ip,
            max_messages_per_minute: self.security.max_messages_per_minute,
            blacklist_enabled: self.security.blacklist_enabled,
            threat_detection_enabled: self.security.threat_detection_enabled,
            allowed_ips: names(self.security.allowed_ips@),
            blocked_ips: names(self.security.blocked_ips@),
            key_rotation_interval_days: self.security.key_rotation_interval_days,
            network: self.network,
            algorithm: self.encryption.algorithm@,
            key_size: self.encryption.key_size,
            session_timeout_hours: self.encryption.session_timeout_hours,
            features: self.features,
        }
    }
}

/// The value of a run of decimal digits.
pub open spec fn decimal_value(digits: Seq<char>) -> nat
    decreases digits.len(),
{
    if digits.len() == 0 {
        0
    } else {
        decimal_value(digits.drop_last()) * 10 + (digits.last() as nat - '0' as nat) as nat
    }
}

/// Whether `c` is one of the digits `0` to `9`.
pub open spec fn is_digit(c: char) -> bool {
    '0' <= c <= '9'
}

/// The number that `text` writes, if it is one of at most `max`: an
/// optional `+`, then one or more of the digits `0` to `9`, and nothing else.
pub open spec fn parsed_number(text: Seq<char>, max: nat) -> Option<nat> {
    let digits = if text.len() > 0 && text[0] == '+' {
        text.skip(1)
    } else {
        text
    };
    if digits.len() > 0 && (forall|i: int| 0 <= i < digits.len() ==> is_digit(#[trigger] digits[i]))
        && decimal_value(digits) <= max {
        Some(decimal_value(digits))
    } else {
        None
    }
}

/// `str::parse::<u16>` of the standard library. It accepts an optional `+`
/// followed by decimal digits whose value fits 16 bits, and nothing else.
/// Verus takes this on trust.
#[verifier::external_body]
fn parse_u16(text: &str) -> (number: Option<u16>)
    ensures
        match number {
            Some(n) => parsed_number(text@, u16::MAX as nat) == Some(n as nat),
            None => parsed_number(text@, u16::MAX as nat).is_none(),
        },
{
    text.parse::<u16>().ok()
}

/// `str::parse::<usize>` of the standard library. It accepts an optional
/// `+` followed by decimal digits whose value fits a machine word, and
/// nothing else. Verus takes this on trust.
#[verifier::external_body]
fn parse_usize(text: &str) -> (number: Option<usize>)
    ensures
        match number {
            Some(n) => parsed_number(text@, usize::MAX as nat) == Some(n as nat),
            None => parsed_number(text@, usize::MAX as nat).is_none(),
        },
{
    text.parse::<usize>().ok()
}

impl ConfigModel {
    /// The configuration of a node for which nothing was configured.
    pub open spec fn default_value() -> ConfigModel {
        ConfigModel {
            host: "127.0.0.1"@,
            port: 8080,
            web_enabled: true,
            cli_enabled: true,
            max_connections_per_ip: 10,
            max_messages_per_minute: 100,
            blacklist_enabled: true,
            threat_detection_enabled: true,
            allowed_ips: Seq::empty(),
            blocked_ips: Seq::empty(),
            key_rotation_interval_days: 7,
            network: NetworkConfig {
                mesh_enabled: true,
                reticulum_enabled: false,
                briar_enabled: false,
                stealth_tcp_enabled: false,
                max_peers: 50,
                connection_timeout_secs: 30,
            },
            algorithm: "AES-256-GCM"@,
            key_size: 32,
            session_timeout_hours: 1,
            features: FeatureFlags {
                matrix_bridge: false,
                meshtastic_bridge: false,
                web_ui: true,
                cli: true,
                api: true,
            },
        }
    }

    /// The default configuration with what the environment sets: the host
    /// if it is set; the port and the connection quota if they are set to a
    /// number that fits; each bridge iff its variable is set.
    pub open spec fn from_env(
        host: Option<Seq<char>>,
        port: Option<Seq<char>>,
        max_connections_per_ip: Option<Seq<char>>,
        matrix_bridge: bool,
        meshtastic_bridge: bool,
    ) -> ConfigModel {
        let base = Self::default_value();
        ConfigModel {
            host: match host {
                Some(h) => h,
                None => base.host,
            },
            port: match port {
                Some(p) => match parsed_number(p, u16::MAX as nat) {
                    Some(n) => n as u16,
                    None => base.port,
                },
                None => base.port,
            },
            max_connections_per_ip: match max_connections_per_ip {
                Some(m) => match parsed_number(m, usize::MAX as nat) {
                    Some(n) => n as usize,
                    None => base.max_connections_per_ip,
                },
                None => base.max_connections_per_ip,
            },
            features: FeatureFlags { matrix_bridge, meshtastic_bridge, ..base.features },
            ..base
        }
    }
}

impl Environment {
    /// The configuration that this environment gives.
    pub open spec fn config(self) -> ConfigModel {
        ConfigModel::from_env(
            text_of(self.host),
            text_of(self.port),
            text_of(self.max_connections_per_ip),
            self.matrix_bridge,
            self.meshtastic_bridge,
        )
    }
}

impl Default for Config {
    fn default() -> (config: Self)
        ensures
            config@ == ConfigModel::default_value(),
    {
        let config = Config {
            server: ServerConfig {
                host: "127.0.0.1".to_owned(),
                port: 8080,
                web_enabled: true,
                cli_enabled: true,
            },
            security: SecurityConfig {
                max_connections_per_ip: 10,
                max_messages_per_minute: 100,
                blacklist_enabled: true,
                threat_detection_enabled: true,
                allowed_ips: Vec::new(),
                blocked_ips: Vec::new(),
                key_rotation_interval_days: 7,
            },
            network: NetworkConfig {
                mesh_enabled: true,
                reticulum_enabled: false,
                briar_enabled: false,
                stealth_tcp_enabled: false,
                max_peers: 50,
                connection_timeout_secs: 30,
            },
            encryption: EncryptionConfig {
                algorithm: "AES-256-GCM".to_owned(),
                key_size: 32,
                session_timeout_hours: 1,
            },
            features: FeatureFlags {
                matrix_bridge: false,
                meshtastic_bridge: false,
                web_ui: true,
                cli: true,
                api: true,
            },
        };
        proof {
            assert(config@.allowed_ips =~= Seq::<Seq<char>>::empty());
            assert(config@.blocked_ips =~= Seq::<Seq<char>>::empty());
        }
        config
    }
}

/// The first configuration that `candidates` offers, if any.
pub open spec fn first_offered(candidates: Seq<Option<Config>>) -> Option<Config>
    decreases candidates.len(),
{
    if candidates.len() == 0 {
        None
    } else if candidates[0].is_some() {
        candidates[0]
    } else {
        first_offered(candidates.skip(1))
    }
}

impl Config {
    /// The configuration to run with. `candidates` holds, for each
    /// configuration file in the order of preference, what it gave if it
    /// could be read. The first file that gave a configuration decides;
    /// where none did, the environment does.
    pub fn load(candidates: Vec<Option<Config>>, environment: &Environment) -> (config: Self)
        ensures
            match first_offered(candidates@) {
                Some(offered) => config == offered,
                None => config@ == environment.config(),
            },
    {
        let ghost all = candidates@;
        let mut offers = candidates;
        let mut i: usize = 0;
        proof {
            assert(all.skip(0) =~= all);
        }
        while i < offers.len()
            invariant
                i <= offers@.len(),
                offers@ == all,
                candidates@ == all,
                first_offered(all) == first_offered(all.skip(i as int)),
            decreases offers@.len() - i,
        {
            proof {
                let rest = all.skip(i as int);
                assert(rest[0] == all[i as int]);
                assert(rest.skip(1) =~= all.skip(i + 1));
            }
            if offers[i].is_some() {
                proof {
                    let rest = all.skip(i as int);
                    assert(first_offered(rest) == rest[0]);
                }
                let found = offers.swap_remove(i);
                return found.unwrap();
            }
            i += 1;
        }
        Self::from_env(environment)
    }

    /// The default configuration with what the environment sets.
    pub fn from_env(environment: &Environment) -> (config: Self)
        ensures
            config@ == environment.config(),
    {
        let mut config = Config::default();
        match &environment.host {
            Some(host) => {
                config.server.host = host.clone();
            },
            None => {},
        }
        match &environment.port {
            Some(port) => {
                match parse_u16(port.as_str()) {
                    Some(number) => {
                        config.server.port = number;
                    },
                    None => {},
                }
            },
            None => {},
        }
        match &environment.max_connections_per_ip {
            Some(quota) => {
                match parse_usize(quota.as_str()) {
                    Some(number) => {
                        config.security.max_connections_per_ip = number;
                    },
                    None => {},
                }
            },
            None => {},
        }
        config.features.matrix_bridge = environment.matrix_bridge;
        config.features.meshtastic_bridge = environment.meshtastic_bridge;
        config
    }

    /// The settings of the Matrix bridge, if the bridge is switched on:
    /// each setting as the environment gives it, or else its default.
    pub fn get_matrix_config(
        &self,
        homeserver: Option<String>,
        user: Option<String>,
        access_token: Option<String>,
    ) -> (settings: Option<MatrixConfig>)
        ensures
            settings.is_some() == self.features.matrix_bridge,
            settings.is_some() ==> {
                let s = settings.unwrap();
                &&& s.homeserver@ == match homeserver {
                    Some(h) => h@,
                    None => "https://matrix.org"@,
                }
                &&& s.user@ == match user {
                    Some(u) => u@,
                    None => "@ghostwire:matrix.org"@,
                }
                &&& s.access_token@ == match access_token {
                    Some(t) => t@,
                    None => ""@,
                }
            },
    {
        if !self.features.matrix_bridge {
            return None;
        }
        Some(
            MatrixConfig {
                homeserver: match homeserver {
                    Some(h) => h,
                    None => "https://matrix.org".to_owned(),
                },
                user: match user {
                    Some(u) => u,
                    None => "@ghostwire:matrix.org".to_owned(),
                },
                access_token: match access_token {
                    Some(t) => t,
                    None => "".to_owned(),
                },
            },
        )
    }

    /// The settings of the Meshtastic bridge, if the bridge is switched on:
    /// each setting as the environment gives it, or else its default.
    pub fn get_meshtastic_config(
        &self,
        device_path: Option<String>,
        channel: Option<String>,
    ) -> (settings: Option<MeshtasticConfig>)
        ensures
            settings.is_some() == self.features.meshtastic_bridge,
            settings.is_some() ==> {
                let s = settings.unwrap();
                &&& s.device_path@ == match device_path {
                    Some(d) => d@,
                    None => "/dev/ttyUSB0"@,
                }
                &&& s.channel@ == match channel {
                    Some(c) => c@,
                    None => "main"@,
                }
            },
    {
        if !self.features.meshtastic_bridge {
            return None;
        }
        Some(
            MeshtasticConfig {
                device_path: match device_path {
                    Some(d) => d,
                    None => "/dev/ttyUSB0".to_owned(),
                },
                channel: match channel {
                    Some(c) => c,
                    None => "main".to_owned(),
                },
            },
        )
    }
}

} // verus!
