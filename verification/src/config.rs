//! The settings of a session and how the sources of settings combine.

use vstd::prelude::*;

verus! {

/// The key bindings that can be configured.
#[derive(Debug, Clone, Copy, PartialEq, Eq)]
pub struct Keymap {
    pub leader_key: char,
}

/// The resolved settings of a session.
#[derive(Debug, Clone, Copy, PartialEq, Eq)]
pub struct Config {
    pub port: u16,
    pub keymap: Keymap,
}

impl Keymap {
    /// The default bindings: the leader key is a comma.
    pub fn new() -> (keymap: Keymap)
        ensures
            keymap == (Keymap { leader_key: ',' }),
    {
        Keymap { leader_key: ',' }
    }
}

impl Config {
    /// The default settings: port 6969 and the default bindings.
    pub fn new() -> (config: Config)
        ensures
            config == (Config { port: 6969, keymap: Keymap { leader_key: ',' } }),
    {
        Config { port: 6969, keymap: Keymap::new() }
    }
}

/// The `[server]` table of a configuration file.
#[derive(Debug, Clone, Copy, PartialEq, Eq)]
pub struct ServerTomlConfig {
    pub port: Option<u16>,
}

/// The `[keymap]` table of a configuration file.
#[derive(Debug, Clone, Copy, PartialEq, Eq)]
pub struct KeymapTomlConfig {
    pub leader_key: Option<char>,
}

/// What a configuration file says. Every table and every key may be missing.
#[derive(Debug, Clone, Copy, PartialEq, Eq)]
pub struct TomlConfig {
    pub server: Option<ServerTomlConfig>,
    pub keymap: Option<KeymapTomlConfig>,
}

/// What the command line says.
#[derive(Debug)]
pub struct PmdCli {
    /// A configuration file to read in place of the default one.
    pub config: Option<String>,
    /// A listening port.
    pub port: Option<u16>,
}

/// The port that a configuration file sets, if it sets one.
pub open spec fn file_port(file: TomlConfig) -> Option<u16> {
    match file.server {
        Some(server) => server.port,
        None => None,
    }
}

/// The leader key that a configuration file sets, if it sets one.
pub open spec fn file_leader_key(file: TomlConfig) -> Option<char> {
    match file.keymap {
        Some(keymap) => keymap.leader_key,
        None => None,
    }
}

/// The settings after a configuration file was applied: what the file sets
/// replaces what was there, what it leaves out stays.
pub open spec fn with_file(config: Config, file: TomlConfig) -> Config {
    Config {
        port: match file_port(file) {
            Some(port) => port,
            None => config.port,
        },
        keymap: Keymap {
            leader_key: match file_leader_key(file) {
                Some(key) => key,
                None => config.keymap.leader_key,
            },
        },
    }
}

/// The settings after the command line's port was applied.
pub open spec fn with_port(config: Config, port: Option<u16>) -> Config {
    match port {
        Some(port) => Config { port, ..config },
        None => config,
    }
}

/// Applies what a configuration file says to the settings.
pub fn parse_toml_config(config: &mut Config, toml_config: &TomlConfig)
    ensures
        *final(config) == with_file(*old(config), *toml_config),
{
    match toml_config.server {
        Some(server_config) => match server_config.port {
            Some(port) => {
                config.port = port;
            },
            None => {},
        },
        None => {},
    }
    match toml_config.keymap {
        Some(keymap_config) => match keymap_config.leader_key {
            Some(leader_key) => {
                config.keymap.leader_key = leader_key;
            },
            None => {},
        },
        None => {},
    }
}

/// Resolves the settings: the configuration file goes over what was there,
/// and the command line's port goes over the file's.
pub fn parse(config: &mut Config, cli: &PmdCli, toml_config: &TomlConfig)
    ensures
        *final(config) == with_port(with_file(*old(config), *toml_config), cli.port),
{
    parse_toml_config(config, toml_config);
    match cli.port {
        Some(port) => {
            config.port = port;
        },
        None => {},
    }
}

/// The file that the settings are read from: the one that the command line
/// names, else the default one.
pub fn config_file(cli: &PmdCli, default_path: &str) -> (path: String)
    ensures
        path@ == (match cli.config {
            Some(given) => given@,
            None => default_path@,
        }),
{
    match &cli.config {
        Some(given) => given.clone(),
        None => default_path.to_owned(),
    }
}

/// Where the default configuration file lies below the home directory on an
/// operating system, by the system's name. Other systems have no such place.
pub open spec fn config_path_of(os: Seq<char>) -> Option<Seq<char>> {
    if os == "linux"@ || os == "macos"@ {
        Some(".config/pmd/config.toml"@)
    } else if os == "windows"@ {
        Some(".pmd/config.toml"@)
    } else {
        None
    }
}

/// Finds the default configuration file's place below the home directory.
pub fn get_config_path(os: &str) -> (path: Option<String>)
    ensures
        match path {
            Some(relative) => config_path_of(os@) == Some(relative@),
            None => config_path_of(os@) is None,
        },
{
    let name = os.to_owned();
    if name == String::from_str("linux") || name == String::from_str("macos") {
        Some(String::from_str(".config/pmd/config.toml"))
    } else if name == String::from_str("windows") {
        Some(String::from_str(".pmd/config.toml"))
    } else {
        None
    }
}

/// The command line wins over the file, and the file over the defaults.
pub proof fn lemma_command_line_port_wins(config: Config, file: TomlConfig, port: u16)
    ensures
        with_port(with_file(config, file), Some(port)).port == port,
        with_port(with_file(config, file), Some(port)).keymap == with_file(config, file).keymap,
{
}

/// A file that sets nothing and a command line without a port leave the
/// settings as they were.
pub proof fn lemma_nothing_set_changes_nothing(config: Config)
    ensures
        with_port(with_file(config, TomlConfig { server: None, keymap: None }), None) == config,
{
}

} // verus!
