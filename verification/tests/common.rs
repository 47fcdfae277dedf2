use release_knock::cli::format_log_line;
use release_knock::common::http::{get_github_api_headers, HeaderError};
use release_knock::common::text::append_decimal;
use release_knock::common::{is_config_exist, ConfigPathError};
use release_knock::server::config::{join_path_exec, ServerConfig};

#[test]
fn decimal_strings_match_display() {
    for n in [0u64, 7, 10, 99, 100, 404, 65535, 1234567890, u64::MAX] {
        let mut s = String::from("code ");
        append_decimal(&mut s, n);
        assert_eq!(s, format!("code {}", n));
    }
}

#[test]
fn existing_config_file_is_accepted() {
    assert_eq!(is_config_exist("/etc/knock.json", true).unwrap(), "/etc/knock.json");
}

#[test]
fn missing_config_file_is_refused_with_its_path() {
    let err = is_config_exist("conf/missing.json", false).unwrap_err();
    match &err {
        ConfigPathError::NotAFile(p) => assert_eq!(p, "conf/missing.json"),
    }
    assert_eq!(err.message(), "\"conf/missing.json\" is not a regular file or not exist");
}

#[test]
fn github_headers_carry_version_accept_and_token() {
    let headers = get_github_api_headers("token abc123".to_string()).unwrap();
    let pairs: Vec<(String, String)> =
        headers.into_iter().map(|h| (h.name, h.value)).collect();
    assert_eq!(
        pairs,
        vec![
            ("X-GitHub-Api-Version".to_string(), "2022-11-28".to_string()),
            ("accept".to_string(), "application/vnd.github+json".to_string()),
            ("authorization".to_string(), "token abc123".to_string()),
        ]
    );
}

#[test]
fn empty_and_tabbed_tokens_are_valid_header_values() {
    assert!(get_github_api_headers(String::new()).is_ok());
    assert!(get_github_api_headers("Bearer\tx".to_string()).is_ok());
    assert!(get_github_api_headers("jeton-é".to_string()).is_ok());
}

#[test]
fn tokens_with_control_characters_are_refused() {
    assert_eq!(get_github_api_headers("abc\n".to_string()).unwrap_err(), HeaderError::InvalidToken);
    assert_eq!(get_github_api_headers("a\u{7f}b".to_string()).unwrap_err(), HeaderError::InvalidToken);
    assert_eq!(
        HeaderError::InvalidToken.message(),
        "cannot parse the given token to header value"
    );
}

#[test]
fn default_config_keeps_the_store_under_home() {
    let c = ServerConfig::default_for_home("/home/knock");
    assert_eq!(c.db_path, "/home/knock/.release-knock");
    assert_eq!(c.github_authorization_token, "");
    assert_eq!(c.period, 7200);
    assert_eq!(c.retry_interval, 600);
    assert!(c.alert.slack.webhook_url.is_empty());
    assert!(c.alert.wechat.webhook_url.is_empty());
    assert!(c.repo_list.is_empty());
}

#[test]
fn paths_join_like_pathbuf_push() {
    for (base, comp) in [("/home/u", ".release-knock"), ("/", ".release-knock"), ("", ".release-knock"), ("rel/dir/", "x")] {
        let mut p = std::path::PathBuf::from(base);
        p.push(comp);
        assert_eq!(join_path_exec(base, comp), p.to_str().unwrap());
    }
}

#[test]
fn log_lines_name_level_time_caller_and_message() {
    assert_eq!(
        format_log_line("INFO", "2024-01-02 03:04:05.000006", Some("src/main.rs"), Some(12), "hello"),
        "INFO [2024-01-02 03:04:05.000006] [caller:\"src/main.rs:12\"] hello"
    );
    assert_eq!(
        format_log_line("WARN", "t", None, None, "m"),
        "WARN [t] [caller:\"unknown caller file:0\"] m"
    );
}
