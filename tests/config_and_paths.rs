use zkml_operator::config::{Config, ConfigSource, DatabaseConfig, PublicConfig, ServerConfig};
use zkml_operator::error::{ErrorCodes, ZKMLError};
use zkml_operator::path::join_path;
use zkml_operator::server::Server;

fn sample_config() -> Config {
    Config {
        server: ServerConfig { host: "0.0.0.0".to_string(), port: 8080 },
        database: DatabaseConfig { user: "u".to_string(), password: "p".to_string() },
        public: PublicConfig { models: "/srv/models".to_string(), binfile: "/usr/bin/ezkl".to_string() },
    }
}

#[test]
fn load_from_missing_path_is_config_missing() {
    let r = Config::load_config("/no/such.yaml".to_string(), ConfigSource::Missing);
    match r {
        Err(ZKMLError::ConfigMissing(p)) => assert_eq!(p, "/no/such.yaml"),
        other => panic!("unexpected: {:?}", other),
    }
}

#[test]
fn load_from_malformed_document_is_serialization_error() {
    let r = Config::load_config("c.yaml".to_string(), ConfigSource::Malformed("expected a map".to_string()));
    let e = r.err().expect("malformed text fails");
    assert!(matches!(e, ZKMLError::SerializationError(_)));
    assert_eq!(e.error_code(), 1002);
    assert_eq!(e.error_message(), "Config deserialization error: expected a map");
}

#[test]
fn load_from_unreadable_file_is_io_error() {
    let r = Config::load_config("c.yaml".to_string(), ConfigSource::Unreadable("permission denied".to_string()));
    assert_eq!(r.err().expect("unreadable fails").error_code(), 1003);
}

#[test]
fn load_decoded_config() {
    let c = Config::load_config("c.yaml".to_string(), ConfigSource::Decoded(sample_config()))
        .ok()
        .expect("a decoded config loads");
    assert_eq!(c.server.host, "0.0.0.0");
    assert_eq!(c.server.port, 8080);
    assert_eq!(c.public.models, "/srv/models");
    let s = Server::new(c);
    assert_eq!(s.config.public.binfile, "/usr/bin/ezkl");
}

#[test]
fn error_code_values() {
    assert_eq!(ErrorCodes::ConfigMissing.code(), 1001);
    assert_eq!(ErrorCodes::SerializationError.code(), 1002);
    assert_eq!(ErrorCodes::IoError.code(), 1003);
    assert_eq!(ErrorCodes::OtherError.code(), 1004);
}

#[test]
fn join_path_like_std() {
    assert_eq!(join_path("/srv/models", "m1"), "/srv/models/m1");
    assert_eq!(join_path("/srv/models/", "m1"), "/srv/models/m1");
    assert_eq!(join_path("/srv/models", "/abs/m"), "/abs/m");
    assert_eq!(join_path("", "m1"), "m1");
    assert_eq!(join_path("a", ""), "a/");
    assert_eq!(join_path("models", "m1/vk.key"), "models/m1/vk.key");
}

#[test]
fn join_path_agrees_with_std_path() {
    for (a, b) in [("/x/y", "z"), ("x/", "y"), ("/", "a"), ("a", "/b"), ("", ""), ("a", "")] {
        let expected = std::path::Path::new(a).join(b);
        assert_eq!(join_path(a, b), expected.to_str().unwrap());
    }
}
