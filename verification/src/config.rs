//! The settings that the flow reads, and the ways to supply them.

use crate::string_map::StringMap;
use std::collections::HashMap;
use vstd::prelude::*;

verus! {

/// Everything the flow needs to know about its surroundings. Loaded once,
/// read-only afterwards.
#[derive(Debug, PartialEq, Eq)]
pub struct Config {
    pub home_uri: String,
    pub callback_url: String,
    pub auth_uri: String,
    pub base_url: String,
    pub discover_playlist: String,
    pub spotify_client_id: String,
    pub spotify_client_secret: String,
    pub redis_url: String,
    pub redis_port: String,
    pub redis_db: String,
    pub redis_password: String,
}

/// The mathematical content of a [`Config`].
pub struct ConfigView {
    pub home_uri: Seq<char>,
    pub callback_url: Seq<char>,
    pub auth_uri: Seq<char>,
    pub base_url: Seq<char>,
    pub discover_playlist: Seq<char>,
    pub spotify_client_id: Seq<char>,
    pub spotify_client_secret: Seq<char>,
    pub redis_url: Seq<char>,
    pub redis_port: Seq<char>,
    pub redis_db: Seq<char>,
    pub redis_password: Seq<char>,
}

impl View for Config {
    type V = ConfigView;

    open spec fn view(&self) -> ConfigView {
        ConfigView {
            home_uri: self.home_uri@,
            callback_url: self.callback_url@,
            auth_uri: self.auth_uri@,
            base_url: self.base_url@,
            discover_playlist: self.discover_playlist@,
            spotify_client_id: self.spotify_client_id@,
            spotify_client_secret: self.spotify_client_secret@,
            redis_url: self.redis_url@,
            redis_port: self.redis_port@,
            redis_db: self.redis_db@,
            redis_password: self.redis_password@,
        }
    }
}

/// The settings in which every entry is empty.
pub open spec fn empty_config() -> ConfigView {
    ConfigView {
        home_uri: Seq::empty(),
        callback_url: Seq::empty(),
        auth_uri: Seq::empty(),
        base_url: Seq::empty(),
        discover_playlist: Seq::empty(),
        spotify_client_id: Seq::empty(),
        spotify_client_secret: Seq::empty(),
        redis_url: Seq::empty(),
        redis_port: Seq::empty(),
        redis_db: Seq::empty(),
        redis_password: Seq::empty(),
    }
}

impl Default for Config {
    fn default() -> (r: Config)
        ensures
            r@ == empty_config(),
    {
        Config {
            home_uri: String::new(),
            callback_url: String::new(),
            auth_uri: String::new(),
            base_url: String::new(),
            discover_playlist: String::new(),
            spotify_client_id: String::new(),
            spotify_client_secret: String::new(),
            redis_url: String::new(),
            redis_port: String::new(),
            redis_db: String::new(),
            redis_password: String::new(),
        }
    }
}

/// A source of settings.
pub trait ConfigProvider {
    fn config(&self) -> &Config;
}

/// Settings taken from the process environment.
pub struct DotEnvConfigProvider(Config);

/// Every variable that [`DotEnvConfigProvider`] reads is set.
pub open spec fn env_complete(vars: Map<Seq<char>, String>) -> bool {
    &&& vars.contains_key("HOME_URI"@)
    &&& vars.contains_key("CALLBACK_URL"@)
    &&& vars.contains_key("AUTH_URI"@)
    &&& vars.contains_key("BASE_URL"@)
    &&& vars.contains_key("DISCOVER_PLAYLIST"@)
    &&& vars.contains_key("SPOTIFY_CLIENT_ID"@)
    &&& vars.contains_key("SPOTIFY_CLIENT_SECRET"@)
    &&& vars.contains_key("REDIS_URL"@)
    &&& vars.contains_key("REDIS_PORT"@)
    &&& vars.contains_key("REDIS_DB"@)
    &&& vars.contains_key("REDIS_PASSWORD"@)
}

/// The settings that a complete environment stands for: each entry is the
/// value of the variable named after it.
pub open spec fn env_config(vars: Map<Seq<char>, String>) -> ConfigView {
    ConfigView {
        home_uri: vars["HOME_URI"@]@,
        callback_url: vars["CALLBACK_URL"@]@,
        auth_uri: vars["AUTH_URI"@]@,
        base_url: vars["BASE_URL"@]@,
        discover_playlist: vars["DISCOVER_PLAYLIST"@]@,
        spotify_client_id: vars["SPOTIFY_CLIENT_ID"@]@,
        spotify_client_secret: vars["SPOTIFY_CLIENT_SECRET"@]@,
        redis_url: vars["REDIS_URL"@]@,
        redis_port: vars["REDIS_PORT"@]@,
        redis_db: vars["REDIS_DB"@]@,
        redis_password: vars["REDIS_PASSWORD"@]@,
    }
}

/// A copy of the value of `name`, if it is set.
fn variable(vars: &StringMap<String>, name: &str) -> (r: Option<String>)
    ensures
        match r {
            Some(value) => vars@.contains_key(name@) && value@ == vars@[name@]@,
            None => !vars@.contains_key(name@),
        },
{
    match vars.get(name) {
        Some(value) => Some(value.clone()),
        None => None,
    }
}

impl DotEnvConfigProvider {
    /// Builds the settings from the variables of the environment, or
    /// nothing when one of them is not set.
    pub fn new(vars: &StringMap<String>) -> (r: Option<DotEnvConfigProvider>)
        ensures
            match r {
                Some(provider) => env_complete(vars@) && provider@ == env_config(vars@),
                None => !env_complete(vars@),
            },
    {
        let home_uri = variable(vars, "HOME_URI")?;
        let callback_url = variable(vars, "CALLBACK_URL")?;
        let auth_uri = variable(vars, "AUTH_URI")?;
        let base_url = variable(vars, "BASE_URL")?;
        let discover_playlist = variable(vars, "DISCOVER_PLAYLIST")?;
        let spotify_client_id = variable(vars, "SPOTIFY_CLIENT_ID")?;
        let spotify_client_secret = variable(vars, "SPOTIFY_CLIENT_SECRET")?;
        let redis_url = variable(vars, "REDIS_URL")?;
        let redis_port = variable(vars, "REDIS_PORT")?;
        let redis_db = variable(vars, "REDIS_DB")?;
        let redis_password = variable(vars, "REDIS_PASSWORD")?;
        Some(
            DotEnvConfigProvider(
                Config {
                    home_uri,
                    callback_url,
                    auth_uri,
                    base_url,
                    discover_playlist,
                    spotify_client_id,
                    spotify_client_secret,
                    redis_url,
                    redis_port,
                    redis_db,
                    redis_password,
                },
            ),
        )
    }
}

impl View for DotEnvConfigProvider {
    type V = ConfigView;

    closed spec fn view(&self) -> ConfigView {
        self.0@
    }
}

impl ConfigProvider for DotEnvConfigProvider {
    fn config(&self) -> (r: &Config)
        ensures
            r@ == self@,
    {
        &self.0
    }
}

/// Settings taken from the command line.
pub struct CmdConfigProvider(Config);

/// `key` is given at least one value in `options`.
pub open spec fn has_option(options: Map<Seq<char>, Vec<String>>, key: Seq<char>) -> bool {
    options.contains_key(key) && options[key]@.len() > 0
}

/// The settings that a command line stands for: the first two positional
/// arguments after the program's name, then the first value of each of the
/// options `home_uri` and `client_id`; every other entry is empty.
pub open spec fn cmd_config(
    args: Seq<String>,
    options: Map<Seq<char>, Vec<String>>,
) -> ConfigView {
    ConfigView {
        home_uri: args[1]@,
        callback_url: args[2]@,
        auth_uri: options["home_uri"@]@[0]@,
        base_url: options["client_id"@]@[0]@,
        ..empty_config()
    }
}

impl CmdConfigProvider {
    /// Builds the settings from positional arguments and named options.
    pub fn new(args: Vec<String>, argv: StringMap<Vec<String>>) -> (r: CmdConfigProvider)
        requires
            args@.len() >= 3,
            has_option(argv@, "home_uri"@),
            has_option(argv@, "client_id"@),
        ensures
            r@ == cmd_config(args@, argv@),
    {
        let db_name = args[1].clone();
        let db_password = args[2].clone();
        let home_uri = match argv.get("home_uri") {
            Some(values) => values[0].clone(),
            None => String::new(),
        };
        let client_id = match argv.get("client_id") {
            Some(values) => values[0].clone(),
            None => String::new(),
        };
        CmdConfigProvider(
            Config {
                home_uri: db_name,
                callback_url: db_password,
                auth_uri: home_uri,
                base_url: client_id,
                discover_playlist: String::new(),
                spotify_client_id: String::new(),
                spotify_client_secret: String::new(),
                redis_url: String::new(),
                redis_port: String::new(),
                redis_db: String::new(),
                redis_password: String::new(),
            },
        )
    }
}

impl View for CmdConfigProvider {
    type V = ConfigView;

    closed spec fn view(&self) -> ConfigView {
        self.0@
    }
}

impl ConfigProvider for CmdConfigProvider {
    fn config(&self) -> (r: &Config)
        ensures
            r@ == self@,
    {
        &self.0
    }
}

/// Settings that leave every entry empty, whatever variables are offered.
pub struct EnvVarProvider(Config);

impl EnvVarProvider {
    /// Builds the empty settings; `_args` is not read.
    pub fn new(_args: HashMap<String, String>) -> (r: EnvVarProvider)
        ensures
            r@ == empty_config(),
    {
        EnvVarProvider(Config::default())
    }
}

impl View for EnvVarProvider {
    type V = ConfigView;

    closed spec fn view(&self) -> ConfigView {
        self.0@
    }
}

impl ConfigProvider for EnvVarProvider {
    fn config(&self) -> (r: &Config)
        ensures
            r@ == self@,
    {
        &self.0
    }
}

impl Default for EnvVarProvider {
    fn default() -> (r: EnvVarProvider)
        ensures
            r@ == empty_config(),
    {
        EnvVarProvider::new(HashMap::new())
    }
}

} // verus!
