use digital_server::environment::Environment;
use digital_server::settings::{ConfigSource, RedisSettings, Settings, S3};

#[test]
fn redis_connection_string() {
    let r = RedisSettings {
        host: "cache.internal".to_string(),
        port: 6379,
        password: "s3cret".to_string(),
    };
    assert_eq!(r.connection_string(), "redis://:s3cret@cache.internal:6379");
}

#[test]
fn redis_connection_string_with_empty_password_and_low_port() {
    let r = RedisSettings { host: "localhost".to_string(), port: 0, password: String::new() };
    assert_eq!(r.connection_string(), "redis://:@localhost:0");
}

#[test]
fn configuration_sources_by_environment() {
    let local = Settings::config_sources(&Environment::Local);
    assert_eq!(
        local,
        vec![
            ConfigSource::YamlFile("settings/config/base.yaml".to_string()),
            ConfigSource::YamlFile("settings/config/local.yaml".to_string()),
            ConfigSource::YamlFile("settings/config/stickers.yaml".to_string()),
            ConfigSource::Environment { prefix: "APP_".to_string(), split: "__".to_string() },
        ]
    );
    let prod = Settings::config_sources(&Environment::Production);
    assert_eq!(prod[1], ConfigSource::YamlFile("settings/config/production.yaml".to_string()));
    assert_eq!(prod.len(), 4);
}

#[test]
fn object_store_client_configuration() {
    let s3 = S3 {
        region: "eu-west-1".to_string(),
        access_key: "AK".to_string(),
        secret_key: "SK".to_string(),
        endpoint_url: "http://minio:9000".to_string(),
    };
    let c = s3.client_config();
    assert_eq!(c.access_key, "AK");
    assert_eq!(c.secret_key, "SK");
    assert_eq!(c.provider_name, "s3-creds");
    assert_eq!(c.endpoint_url, "http://minio:9000");
    assert_eq!(c.region, "eu-west-1");
    assert!(c.force_path_style);
}
