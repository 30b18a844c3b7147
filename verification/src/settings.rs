//! The service's settings, as plain values, and how they are assembled.

use vstd::prelude::*;

use crate::environment::{environment_name, Environment};
use crate::text::{decimal, decimal_string};

verus! {

/// Where the HTTP server listens and how it is reached from outside.
#[derive(Debug, Clone, PartialEq, Eq)]
pub struct AppSettings {
    pub port: u16,
    pub host: String,
    pub cors_allow_origin: Vec<String>,
    pub public_url: String,
}

/// Settings of the chat model the bot talks through.
#[derive(Debug, Clone, PartialEq, Eq)]
pub struct OpenAISettings {
    pub chat: ChatSettings,
}

/// The chat model to use and how much recent history to send it.
#[derive(Debug, Clone, PartialEq, Eq)]
pub struct ChatSettings {
    pub model: String,
    pub past_log_count: i64,
}

/// The Telegram stickers the bot sends.
#[derive(Debug, Clone, PartialEq, Eq)]
pub struct Stickers {
    pub kiss: String,
    pub hello: String,
    pub hug: String,
    pub coming_soon: String,
    pub sad: String,
    pub party_animals: Vec<String>,
    pub sleep: String,
    pub lame: String,
    pub angry: String,
    pub devil: String,
    pub flower: String,
    pub love: String,
    pub laugh: String,
    pub whatever: String,
}

/// Where the Redis server is and how to sign in to it.
#[derive(Debug, Clone, PartialEq, Eq)]
pub struct RedisSettings {
    pub host: String,
    pub port: u16,
    pub password: String,
}

/// Where the object store is and the keys to it.
#[derive(Debug, Clone, PartialEq, Eq)]
pub struct S3 {
    pub region: String,
    pub access_key: String,
    pub secret_key: String,
    pub endpoint_url: String,
}

/// How to make an object store client: static credentials under the
/// provider name `s3-creds`, the endpoint and region, and path-style
/// addressing.
#[derive(Debug, Clone, PartialEq, Eq)]
pub struct S3ClientConfig {
    pub access_key: String,
    pub secret_key: String,
    pub provider_name: String,
    pub endpoint_url: String,
    pub region: String,
    pub force_path_style: bool,
}

/// Where the PostgreSQL server is, how to sign in, and which database to use.
#[derive(Debug, Clone, PartialEq, Eq)]
pub struct DatabaseSettings {
    pub username: String,
    pub password: String,
    pub port: u16,
    pub host: String,
    pub database_name: String,
}

/// All the settings of the service.
#[derive(Debug, Clone, PartialEq, Eq)]
pub struct Settings {
    pub app: AppSettings,
    pub s3: S3,
    pub database: DatabaseSettings,
    pub openai: OpenAISettings,
    pub stickers: Stickers,
    pub redis: RedisSettings,
}

/// A source of settings; later sources override earlier ones.
#[derive(Debug, Clone, PartialEq, Eq)]
pub enum ConfigSource {
    /// A YAML file, by its path relative to the working directory.
    YamlFile(String),
    /// The environment variables whose names start with `prefix`; `split`
    /// separates the levels of a nested key.
    Environment { prefix: String, split: String },
}

/// A source of settings, as text.
pub enum ConfigSourceView {
    YamlFile(Seq<char>),
    Environment { prefix: Seq<char>, split: Seq<char> },
}

impl View for ConfigSource {
    type V = ConfigSourceView;

    open spec fn view(&self) -> ConfigSourceView {
        match self {
            ConfigSource::YamlFile(p) => ConfigSourceView::YamlFile(p@),
            ConfigSource::Environment { prefix, split } => ConfigSourceView::Environment {
                prefix: prefix@,
                split: split@,
            },
        }
    }
}

/// The URL of the Redis server, with its password and no user name.
pub open spec fn redis_url_spec(r: &RedisSettings) -> Seq<char> {
    "redis://:"@ + r.password@ + "@"@ + r.host@ + ":"@ + decimal(r.port as nat)
}

/// The sources the settings of `env` are read from, in order: the base
/// file, the file of the environment, the stickers file, then the
/// environment variables starting with `APP_`, with `__` between levels.
pub open spec fn config_sources_spec(env: Environment) -> Seq<ConfigSourceView> {
    seq![
        ConfigSourceView::YamlFile("settings/config/base.yaml"@),
        ConfigSourceView::YamlFile("settings/config/"@ + environment_name(env) + ".yaml"@),
        ConfigSourceView::YamlFile("settings/config/stickers.yaml"@),
        ConfigSourceView::Environment { prefix: "APP_"@, split: "__"@ },
    ]
}

impl RedisSettings {
    /// The URL to connect to the Redis server with.
    pub fn connection_string(&self) -> (r: String)
        ensures
            r@ == redis_url_spec(self),
    {
        let mut r = "redis://:".to_string();
        r.append(self.password.as_str());
        r.append("@");
        r.append(self.host.as_str());
        r.append(":");
        let port = decimal_string(self.port as u64);
        r.append(port.as_str());
        r
    }
}

impl S3 {
    /// How to make a client for this object store.
    pub fn client_config(&self) -> (c: S3ClientConfig)
        ensures
            c.access_key@ == self.access_key@,
            c.secret_key@ == self.secret_key@,
            c.provider_name@ == "s3-creds"@,
            c.endpoint_url@ == self.endpoint_url@,
            c.region@ == self.region@,
            c.force_path_style,
    {
        S3ClientConfig {
            access_key: self.access_key.clone(),
            secret_key: self.secret_key.clone(),
            provider_name: "s3-creds".to_string(),
            endpoint_url: self.endpoint_url.clone(),
            region: self.region.clone(),
            force_path_style: true,
        }
    }
}

impl Settings {
    /// The sources the settings of `env` are read from, in order; later
    /// ones override earlier ones.
    pub fn config_sources(env: &Environment) -> (r: Vec<ConfigSource>)
        ensures
            r@.map_values(|c: ConfigSource| c@) == config_sources_spec(*env),
    {
        let mut env_file = "settings/config/".to_string();
        env_file.append(env.as_str());
        env_file.append(".yaml");
        let mut r: Vec<ConfigSource> = Vec::new();
        r.push(ConfigSource::YamlFile("settings/config/base.yaml".to_string()));
        r.push(ConfigSource::YamlFile(env_file));
        r.push(ConfigSource::YamlFile("settings/config/stickers.yaml".to_string()));
        r.push(ConfigSource::Environment { prefix: "APP_".to_string(), split: "__".to_string() });
        assert(r@.map_values(|c: ConfigSource| c@) =~= config_sources_spec(*env));
        r
    }
}

} // verus!
