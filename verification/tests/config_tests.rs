use docu_mcp::config::{config_from_file, config_path_in, parse_config, Config, ConfigError};
use docu_mcp::json::Json;

#[test]
fn test_config_default() {
    let config = Config::default();
    assert!(config.directories.is_empty());
    assert!(config.active_directory.is_none());
}

#[test]
fn test_config_serialization() {
    let mut config = Config::default();
    config.directories.push("/test/path".to_string());
    config.active_directory = Some("/test/path".to_string());

    let json = config.render().unwrap();
    let deserialized: Config = parse_config(&json, "config.json").unwrap();

    assert_eq!(deserialized.directories.len(), 1);
    assert_eq!(deserialized.directories[0], "/test/path");
    assert_eq!(deserialized.active_directory, Some("/test/path".to_string()));
}

#[test]
fn configuration_is_written_as_indented_json() {
    let config = Config {
        directories: vec!["/a".to_string(), "/b \"c\"".to_string(), "/d".to_string()],
        active_directory: Some("/a".to_string()),
    };
    assert_eq!(
        config.render().unwrap(),
        "{\n  \"directories\": [\n    \"/a\",\n    \"/b \\\"c\\\"\",\n    \"/d\"\n  ],\n  \"active_directory\": \"/a\"\n}"
    );
    let single = Config { directories: vec!["/a".to_string()], active_directory: None };
    assert_eq!(
        single.render().unwrap(),
        "{\n  \"directories\": [\n    \"/a\"\n  ],\n  \"active_directory\": null\n}"
    );
    assert_eq!(
        Config::default().render().unwrap(),
        "{\n  \"directories\": [],\n  \"active_directory\": null\n}"
    );
}

#[test]
fn written_configuration_reads_back() {
    let config = Config {
        directories: vec!["/a".to_string(), "/b\n\u{e9}".to_string()],
        active_directory: Some("/b\n\u{e9}".to_string()),
    };
    assert_eq!(parse_config(&config.render().unwrap(), "c"), Ok(config.clone()));
    let value: serde_json::Value = serde_json::from_str(&config.render().unwrap()).unwrap();
    assert_eq!(value["directories"][1], serde_json::Value::String("/b\n\u{e9}".to_string()));
}

#[test]
fn configuration_is_read_from_a_document() {
    let document = Json::parse("{\"directories\":[\"/a\",\"/b\"],\"active_directory\":\"/b\",\"more\":1}")
        .unwrap();
    assert_eq!(
        Config::from_json(&document),
        Some(Config {
            directories: vec!["/a".to_string(), "/b".to_string()],
            active_directory: Some("/b".to_string()),
        })
    );
    let document = Json::parse("{\"directories\":[]}").unwrap();
    assert_eq!(Config::from_json(&document), Some(Config::default()));
    let document = Json::parse("{\"directories\":[],\"active_directory\":null}").unwrap();
    assert_eq!(Config::from_json(&document), Some(Config::default()));
}

#[test]
fn corrupt_configuration_is_refused() {
    for content in [
        "",
        "not json",
        "[]",
        "{}",
        "{\"directories\":\"/a\"}",
        "{\"directories\":[1]}",
        "{\"directories\":[\"/a\", null]}",
        "{\"directories\":[],\"active_directory\":7}",
        "{\"active_directory\":\"/a\"}",
    ] {
        assert_eq!(
            parse_config(content, "/home/u/.config/docu-mcp/config.json"),
            Err(ConfigError::ParseFailed("/home/u/.config/docu-mcp/config.json".to_string()))
        );
    }
}

#[test]
fn configuration_file_lies_below_the_platform_directory() {
    let path = config_path_in("/home/u/.config");
    let expected: std::path::PathBuf =
        ["/home/u/.config", "docu-mcp", "config.json"].iter().collect();
    assert_eq!(std::path::PathBuf::from(path), expected);
}

#[test]
fn configuration_errors_speak() {
    assert_eq!(ConfigError::NoConfigDirectory.message(), "Failed to get config directory");
    assert_eq!(ConfigError::ReadFailed("/c".to_string()).message(), "Failed to read config file: /c");
    assert_eq!(ConfigError::ParseFailed("/c".to_string()).message(), "Failed to parse config file: /c");
    assert_eq!(
        ConfigError::CreateDirectoryFailed("/c".to_string()).message(),
        "Failed to create config directory: /c"
    );
    assert_eq!(ConfigError::SerializeFailed.message(), "Failed to serialize config");
    assert_eq!(ConfigError::WriteFailed("/c".to_string()).message(), "Failed to write config file: /c");
}

#[test]
fn clone_copies_the_configuration() {
    let config = Config {
        directories: vec!["/a".to_string(), "/b".to_string()],
        active_directory: Some("/b".to_string()),
    };
    assert_eq!(config.clone(), config);
}

#[test]
fn missing_file_gives_the_empty_configuration() {
    assert_eq!(config_from_file(None, "/c.json"), Ok(Config::default()));
    assert_eq!(
        config_from_file(Some("{\"directories\":[\"/a\"]}"), "/c.json"),
        Ok(Config { directories: vec!["/a".to_string()], active_directory: None })
    );
    assert_eq!(
        config_from_file(Some(""), "/c.json"),
        Err(ConfigError::ParseFailed("/c.json".to_string()))
    );
}
