use release_knock::params::db::{Release, ReleaseDetail};
use release_knock::server::alert::{slack, wechat, AlertConfig, AlertTarget};

fn sample_release() -> Release {
    Release::new(
        "https://api.github.com/repos/o/r/releases/latest".to_string(),
        "o/r".to_string(),
        ReleaseDetail {
            release_name: "v1.2.0 \"Brave\"".to_string(),
            tag_name: "v1.2.0".to_string(),
            prerelease: false,
            published_at: "2023-05-01T10:00:00Z".to_string(),
            html_url: "https://github.com/o/r/releases/tag/v1.2.0".to_string(),
        },
    )
}

#[test]
fn slack_message_text_lists_the_fields_in_order() {
    let msg = slack::AlertProvider::build_message(&sample_release());
    assert_eq!(
        msg,
        "*name:* o/r\n*tag:* v1.2.0\n*release_name:* v1.2.0 \"Brave\"\n*publish_at:* 2023-05-01T10:00:00Z\n*url:* https://github.com/o/r/releases/tag/v1.2.0\n"
    );
}

#[test]
fn slack_body_is_the_attachment_document() {
    let body = slack::AlertProvider::build_http_body(sample_release());
    let expected: String = [
        "{\"attachments\":[{\"blocks\":[",
        "{\"text\":{\"text\":\"New Github Release Version\",\"type\":\"plain_text\"},\"type\":\"header\"},",
        "{\"text\":{\"text\":\"*name:* o/r\\n*tag:* v1.2.0\\n*release_name:* v1.2.0 \\\"Brave\\\"\\n*publish_at:* 2023-05-01T10:00:00Z\\n*url:* https://github.com/o/r/releases/tag/v1.2.0\\n\",\"type\":\"mrkdwn\"},\"type\":\"section\"}",
        "],\"color\":\"#f2c744\"}]}",
    ]
    .concat();
    assert_eq!(body, expected);
    let parsed: serde_json::Value = serde_json::from_str(&body).unwrap();
    assert_eq!(parsed["attachments"][0]["color"], "#f2c744");
    assert_eq!(
        parsed["attachments"][0]["blocks"][1]["text"]["text"].as_str().unwrap(),
        slack::AlertProvider::build_message(&sample_release())
    );
}

#[test]
fn wechat_body_is_the_markdown_document() {
    let body = wechat::AlertProvider::build_http_body(sample_release());
    let expected: String = [
        "{\"markdown\":{\"content\":\"**<font color=\\\"warning\\\">New Github Release Version</font>**\\n",
        "> name: <font color=\\\"info\\\">o/r</font>\\n",
        "> tag: <font color=\\\"info\\\">v1.2.0</font>\\n",
        "> release_name: <font color=\\\"info\\\">v1.2.0 \\\"Brave\\\"</font>\\n",
        "> published_at: <font color=\\\"info\\\">2023-05-01T10:00:00Z</font>\\n",
        "> url: <font color=\\\"info\\\">https://github.com/o/r/releases/tag/v1.2.0</font>\"},",
        "\"msgtype\":\"markdown\"}",
    ]
    .concat();
    assert_eq!(body, expected);
    let parsed: serde_json::Value = serde_json::from_str(&body).unwrap();
    assert_eq!(parsed["msgtype"], "markdown");
}

#[test]
fn webhook_headers_carry_the_json_content_type() {
    let s = slack::AlertProvider::build_http_headers();
    assert_eq!(s.len(), 1);
    assert_eq!(s[0].name, "content-type");
    assert_eq!(s[0].value, "application/json");
    let w = wechat::AlertProvider::build_http_headers();
    assert_eq!(w.len(), 1);
    assert_eq!(w[0].name, "content-type");
    assert_eq!(w[0].value, "application/json");
}

#[test]
fn success_statuses_are_accepted() {
    assert_eq!(slack::AlertProvider::check_response(200), Ok(()));
    assert_eq!(slack::AlertProvider::check_response(299), Ok(()));
    assert_eq!(wechat::AlertProvider::check_response(204), Ok(()));
}

#[test]
fn failure_statuses_name_the_code() {
    assert_eq!(
        slack::AlertProvider::check_response(404),
        Err("Slack http response code is 404.".to_string())
    );
    assert_eq!(
        wechat::AlertProvider::check_response(500),
        Err("Wechat http response code is 500.".to_string())
    );
    assert_eq!(
        slack::AlertProvider::check_response(199),
        Err("Slack http response code is 199.".to_string())
    );
    assert_eq!(
        wechat::AlertProvider::check_response(300),
        Err("Wechat http response code is 300.".to_string())
    );
    assert_eq!(
        AlertTarget::Slack.check_response(100),
        Err("Slack http response code is 100.".to_string())
    );
}

fn config(slack_url: &str, wechat_url: &str) -> AlertConfig {
    AlertConfig {
        slack: slack::AlertProvider { webhook_url: slack_url.to_string() },
        wechat: wechat::AlertProvider { webhook_url: wechat_url.to_string() },
    }
}

#[test]
fn default_alert_config_alerts_nobody() {
    let c = AlertConfig::default();
    assert!(c.slack.webhook_url.is_empty());
    assert!(c.wechat.webhook_url.is_empty());
    assert!(c.targets().is_empty());
    assert!(c.alert_requests(&sample_release()).is_empty());
}

#[test]
fn only_configured_services_are_alerted() {
    assert_eq!(config("https://s", "").targets(), vec![AlertTarget::Slack]);
    assert_eq!(config("", "https://w").targets(), vec![AlertTarget::Wechat]);
    assert_eq!(
        config("https://s", "https://w").targets(),
        vec![AlertTarget::Slack, AlertTarget::Wechat]
    );
}

#[test]
fn alert_requests_go_to_each_webhook_with_its_body() {
    let c = config("https://hooks.slack/x", "https://qyapi/y");
    let reqs = c.alert_requests(&sample_release());
    assert_eq!(reqs.len(), 2);
    assert_eq!(reqs[0].target, AlertTarget::Slack);
    assert_eq!(reqs[0].url, "https://hooks.slack/x");
    assert_eq!(reqs[0].body, slack::AlertProvider::build_http_body(sample_release()));
    assert_eq!(reqs[0].timeout_secs, 5);
    assert_eq!(reqs[1].target, AlertTarget::Wechat);
    assert_eq!(reqs[1].url, "https://qyapi/y");
    assert_eq!(reqs[1].body, wechat::AlertProvider::build_http_body(sample_release()));
    assert_eq!(reqs[1].headers[0].value, "application/json");
}

fn object(pairs: Vec<(&str, serde_json::Value)>) -> serde_json::Value {
    let mut map = serde_json::Map::new();
    for (k, v) in pairs {
        map.insert(k.to_string(), v);
    }
    serde_json::Value::Object(map)
}

fn text(s: &str) -> serde_json::Value {
    serde_json::Value::String(s.to_string())
}

#[test]
fn slack_body_matches_the_serialised_notice() {
    let release = sample_release();
    let msg = slack::AlertProvider::build_message(&release);
    let header = object(vec![
        ("text", object(vec![("text", text("New Github Release Version")), ("type", text("plain_text"))])),
        ("type", text("header")),
    ]);
    let section = object(vec![
        ("text", object(vec![("text", text(&msg)), ("type", text("mrkdwn"))])),
        ("type", text("section")),
    ]);
    let attachment = object(vec![
        ("blocks", serde_json::Value::Array(vec![header, section])),
        ("color", text("#f2c744")),
    ]);
    let notice = object(vec![("attachments", serde_json::Value::Array(vec![attachment]))]);
    assert_eq!(slack::AlertProvider::build_http_body(release), notice.to_string());
}

#[test]
fn wechat_body_matches_the_serialised_message() {
    let release = sample_release();
    let msg = wechat::AlertProvider::build_message(&release);
    let data = object(vec![
        ("markdown", object(vec![("content", text(&msg))])),
        ("msgtype", text("markdown")),
    ]);
    assert_eq!(wechat::AlertProvider::build_http_body(release), data.to_string());
}

#[test]
fn frames_put_the_quoted_message_in_place() {
    assert_eq!(
        wechat::AlertProvider::frame_body("\"hi\""),
        "{\"markdown\":{\"content\":\"hi\"},\"msgtype\":\"markdown\"}"
    );
    assert_eq!(
        slack::AlertProvider::frame_body("\"m\""),
        "{\"attachments\":[{\"blocks\":[{\"text\":{\"text\":\"New Github Release Version\",\"type\":\"plain_text\"},\"type\":\"header\"},{\"text\":{\"text\":\"m\",\"type\":\"mrkdwn\"},\"type\":\"section\"}],\"color\":\"#f2c744\"}]}"
    );
}

#[test]
fn control_characters_are_escaped_in_bodies() {
    let mut release = sample_release();
    release.name = "a\u{1}b\u{1f}\\c\r\u{8}\u{c}\u{7f}é".to_string();
    let msg = wechat::AlertProvider::build_message(&release);
    let expected = wechat::AlertProvider::frame_body(&serde_json::Value::String(msg).to_string());
    assert_eq!(wechat::AlertProvider::build_http_body(release.duplicate()), expected);
    let body = wechat::AlertProvider::build_http_body(release);
    assert!(body.contains("a\\u0001b\\u001f\\\\c\\r\\b\\f\u{7f}é"));
}
