use std::path::PathBuf;

use watch_release::cli::{Cli, Commands};
use watch_release::config::{ServerConfig, DEFAULT_PERIOD, DEFAULT_RETRY_INTERVAL};
use watch_release::server::{build_header, is_config_exist, Command, HeaderError};

#[test]
fn headers_carry_version_media_type_and_token() {
    let headers = build_header("Bearer abc123".to_string()).expect("the token is legal");
    let pairs: Vec<(&str, &str)> =
        headers.iter().map(|h| (h.name.as_str(), h.value.as_str())).collect();
    assert_eq!(
        pairs,
        vec![
            ("X-GitHub-Api-Version", "2022-11-28"),
            ("accept", "application/vnd.github+json"),
            ("authorization", "Bearer abc123"),
        ]
    );
}

#[test]
fn every_header_is_taken_by_the_http_library() {
    let headers = build_header("Bearer abc123".to_string()).expect("the token is legal");
    let mut map = reqwest::header::HeaderMap::new();
    for header in &headers {
        let name = reqwest::header::HeaderName::from_bytes(header.name.as_bytes())
            .expect("a header name");
        let value =
            reqwest::header::HeaderValue::from_str(&header.value).expect("a header value");
        map.insert(name, value);
    }
    assert_eq!(map.len(), 3);
    assert_eq!(map.get("x-github-api-version").unwrap(), "2022-11-28");
    assert_eq!(map.get(reqwest::header::ACCEPT).unwrap(), "application/vnd.github+json");
    assert_eq!(map.get(reqwest::header::AUTHORIZATION).unwrap(), "Bearer abc123");
}

#[test]
fn empty_token_is_legal() {
    let headers = build_header(String::new()).expect("the empty token is legal");
    assert_eq!(headers[2].name, "authorization");
    assert_eq!(headers[2].value, "");
}

#[test]
fn token_with_a_line_break_is_refused() {
    assert_eq!(build_header("abc\ndef".to_string()).unwrap_err(), HeaderError::InvalidToken);
    assert_eq!(build_header("abc\r".to_string()).unwrap_err(), HeaderError::InvalidToken);
    assert_eq!(build_header("\u{0}".to_string()).unwrap_err(), HeaderError::InvalidToken);
    assert_eq!(build_header("a\u{7f}b".to_string()).unwrap_err(), HeaderError::InvalidToken);
    assert_eq!(build_header("a\u{1f}".to_string()).unwrap_err(), HeaderError::InvalidToken);
}

#[test]
fn token_with_tab_or_beyond_ascii_is_legal() {
    assert!(build_header("a\tb".to_string()).is_ok());
    assert!(build_header("clé ~ ".to_string()).is_ok());
}

#[test]
fn config_file_must_be_a_regular_file() {
    let path = PathBuf::from("conf/watch.json");
    assert_eq!(is_config_exist(path.clone(), "conf/watch.json", true), Ok(path.clone()));
    assert_eq!(
        is_config_exist(path, "conf/watch.json", false),
        Err("\"conf/watch.json\" is not a regular file or not exist".to_string())
    );
}

#[test]
fn command_hands_out_its_config_file() {
    let command = Command::new(PathBuf::from("/etc/watch.json"));
    assert_eq!(command.get_config_file(), PathBuf::from("/etc/watch.json"));
    let cli = Cli { command: Commands::Server(command) };
    match cli.command {
        Commands::Server(command) => {
            assert_eq!(command.get_config_file(), PathBuf::from("/etc/watch.json"))
        }
    }
}

#[test]
fn default_configuration() {
    let config = ServerConfig::with_db_path(PathBuf::from("/var/lib/watch/data"));
    assert_eq!(config.github_authorization_header, "");
    assert_eq!(config.db_path, PathBuf::from("/var/lib/watch/data"));
    assert_eq!(config.period, 7200);
    assert_eq!(config.retry_interval, 600);
    assert_eq!(DEFAULT_PERIOD, 7200);
    assert_eq!(DEFAULT_RETRY_INTERVAL, 600);
    assert!(!config.alert.slack.is_enabled());
    assert!(!config.alert.wechat.is_enabled());
    assert!(config.repo_list.is_empty());
}
