use watch_release::db::{Release, ReleaseDetail};
use watch_release::server::alert::slack;
use watch_release::server::alert::wechat;
use watch_release::server::alert::{
    delivery_result, Config, DeliveryError, DispatchStep, Dispatcher, Provider, ALERT_PERMITS,
    ALERT_QUEUE_CAPACITY, DELIVERY_TIMEOUT_SECS,
};

fn sample() -> Release {
    Release::new(
        "https://api.example.test/repos/foo/releases/latest".to_string(),
        "foo".to_string(),
        ReleaseDetail {
            release_name: "Second".to_string(),
            tag_name: "v1.1.0".to_string(),
            prerelease: false,
            published_at: "2023-04-01T10:00:00Z".to_string(),
            html_url: "https://example.test/foo/releases/v1.1.0".to_string(),
        },
    )
}

fn both() -> Config {
    Config {
        slack: slack::AlertProvider { webhook_url: "https://hooks.example.test/slack".to_string() },
        wechat: wechat::AlertProvider {
            webhook_url: "https://hooks.example.test/wechat".to_string(),
        },
    }
}

fn text(value: &str) -> serde_json::Value {
    serde_json::Value::String(value.to_string())
}

fn object(fields: Vec<(&str, serde_json::Value)>) -> serde_json::Value {
    let mut map = serde_json::Map::new();
    for (key, value) in fields {
        map.insert(key.to_string(), value);
    }
    serde_json::Value::Object(map)
}

#[test]
fn slack_message_lists_the_release() {
    assert_eq!(
        slack::AlertProvider::build_message(&sample()),
        "*name:* foo\n*tag:* v1.1.0\n*release_name:* Second\n*publish_at:* 2023-04-01T10:00:00Z\n*url:* https://example.test/foo/releases/v1.1.0\n"
    );
}

#[test]
fn slack_body_is_exact() {
    assert_eq!(
        slack::AlertProvider::build_http_body(&sample()),
        "{\"attachments\":[{\"blocks\":[{\"text\":{\"text\":\"New Github Release Version\",\"type\":\"plain_text\"},\"type\":\"header\"},{\"text\":{\"text\":\"*name:* foo\\n*tag:* v1.1.0\\n*release_name:* Second\\n*publish_at:* 2023-04-01T10:00:00Z\\n*url:* https://example.test/foo/releases/v1.1.0\\n\",\"type\":\"mrkdwn\"},\"type\":\"section\"}],\"color\":\"#f2c744\"}]}"
    );
}

#[test]
fn slack_body_is_what_serde_json_writes_for_the_notice() {
    let release = sample();
    let header = object(vec![
        ("text", object(vec![("text", text("New Github Release Version")), ("type", text("plain_text"))])),
        ("type", text("header")),
    ]);
    let section = object(vec![
        (
            "text",
            object(vec![
                ("text", text(&slack::AlertProvider::build_message(&release))),
                ("type", text("mrkdwn")),
            ]),
        ),
        ("type", text("section")),
    ]);
    let attachment = object(vec![
        ("blocks", serde_json::Value::Array(vec![header, section])),
        ("color", text("#f2c744")),
    ]);
    let notice = object(vec![("attachments", serde_json::Value::Array(vec![attachment]))]);
    assert_eq!(slack::AlertProvider::build_http_body(&release), notice.to_string());
}

#[test]
fn slack_body_parses_back_to_the_message() {
    let mut release = sample();
    release.detail.release_name = "quote \" backslash \\ tab \t bell \u{7} é".to_string();
    let body = slack::AlertProvider::build_http_body(&release);
    let parsed: serde_json::Value = serde_json::from_str(&body).expect("the body is JSON");
    let message = parsed["attachments"][0]["blocks"][1]["text"]["text"]
        .as_str()
        .expect("the message is a string");
    assert_eq!(message, slack::AlertProvider::build_message(&release));
    assert_eq!(parsed["attachments"][0]["color"], text("#f2c744"));
}

#[test]
fn slack_frame_wraps_what_it_is_given() {
    assert_eq!(
        slack::AlertProvider::build_frame("\"x\""),
        "{\"attachments\":[{\"blocks\":[{\"text\":{\"text\":\"New Github Release Version\",\"type\":\"plain_text\"},\"type\":\"header\"},{\"text\":{\"text\":\"x\",\"type\":\"mrkdwn\"},\"type\":\"section\"}],\"color\":\"#f2c744\"}]}"
    );
}

#[test]
fn wechat_message_lists_the_release() {
    assert_eq!(
        wechat::AlertProvider::build_message(&sample()),
        "**<font color=\"warning\">New Github Release Version</font>**\n> name: <font color=\"info\">foo</font>\n> tag: <font color=\"info\">v1.1.0</font>\n> release_name: <font color=\"info\">Second</font>\n> published_at: <font color=\"info\">2023-04-01T10:00:00Z</font>\n> url: <font color=\"info\">https://example.test/foo/releases/v1.1.0</font>"
    );
}

#[test]
fn wechat_body_is_exact() {
    assert_eq!(
        wechat::AlertProvider::build_http_body(&sample()),
        "{\"markdown\":{\"content\":\"**<font color=\\\"warning\\\">New Github Release Version</font>**\\n> name: <font color=\\\"info\\\">foo</font>\\n> tag: <font color=\\\"info\\\">v1.1.0</font>\\n> release_name: <font color=\\\"info\\\">Second</font>\\n> published_at: <font color=\\\"info\\\">2023-04-01T10:00:00Z</font>\\n> url: <font color=\\\"info\\\">https://example.test/foo/releases/v1.1.0</font>\"},\"msgtype\":\"markdown\"}"
    );
}

#[test]
fn wechat_body_is_what_serde_json_writes_for_the_message() {
    let release = sample();
    let data = object(vec![
        ("markdown", object(vec![("content", text(&wechat::AlertProvider::build_message(&release)))])),
        ("msgtype", text("markdown")),
    ]);
    assert_eq!(wechat::AlertProvider::build_http_body(&release), data.to_string());
}

#[test]
fn wechat_frame_wraps_what_it_is_given() {
    assert_eq!(
        wechat::AlertProvider::build_frame("\"x\""),
        "{\"markdown\":{\"content\":\"x\"},\"msgtype\":\"markdown\"}"
    );
}

#[test]
fn provider_is_enabled_by_its_address() {
    assert!(!slack::AlertProvider::default().is_enabled());
    assert!(!wechat::AlertProvider::default().is_enabled());
    assert!(both().slack.is_enabled());
    assert!(both().wechat.is_enabled());
    assert_eq!(Config::default().slack.webhook_url, "");
    assert_eq!(Config::default().wechat.webhook_url, "");
}

#[test]
fn deliveries_go_to_enabled_providers_only() {
    let release = sample();
    assert!(Config::default().deliveries(&release).is_empty());

    let list = both().deliveries(&release);
    assert_eq!(list.len(), 2);
    assert_eq!(list[0].provider, Provider::Slack);
    assert_eq!(list[0].repo, "foo");
    assert_eq!(list[0].webhook_url, "https://hooks.example.test/slack");
    assert_eq!(list[0].body, slack::AlertProvider::build_http_body(&release));
    assert_eq!(list[1].provider, Provider::Wechat);
    assert_eq!(list[1].repo, "foo");
    assert_eq!(list[1].webhook_url, "https://hooks.example.test/wechat");
    assert_eq!(list[1].body, wechat::AlertProvider::build_http_body(&release));

    let mut only_wechat = both();
    only_wechat.slack.webhook_url.clear();
    let list = only_wechat.deliveries(&release);
    assert_eq!(list.len(), 1);
    assert_eq!(list[0].provider, Provider::Wechat);
}

#[test]
fn delivery_succeeds_on_the_success_class_only() {
    assert_eq!(delivery_result(Some(200)), Ok(()));
    assert_eq!(delivery_result(Some(204)), Ok(()));
    assert_eq!(delivery_result(Some(299)), Ok(()));
    assert_eq!(delivery_result(Some(199)), Err(DeliveryError::Status(199)));
    assert_eq!(delivery_result(Some(300)), Err(DeliveryError::Status(300)));
    assert_eq!(delivery_result(Some(404)), Err(DeliveryError::Status(404)));
    assert_eq!(delivery_result(Some(500)), Err(DeliveryError::Status(500)));
    assert_eq!(delivery_result(None), Err(DeliveryError::Transport));
}

#[test]
fn alerter_limits() {
    assert_eq!(ALERT_PERMITS, 4);
    assert_eq!(ALERT_QUEUE_CAPACITY, 32);
    assert_eq!(DELIVERY_TIMEOUT_SECS, 5);
}

#[test]
fn failing_provider_does_not_stop_the_other() {
    let mut dispatcher = Dispatcher::new(both(), ALERT_PERMITS);
    assert!(matches!(dispatcher.next(), DispatchStep::Receive));
    assert!(dispatcher.on_release(&sample()));

    let first = match dispatcher.next() {
        DispatchStep::Start(delivery) => delivery,
        other => panic!("unexpected step {:?}", other),
    };
    assert_eq!(first.provider, Provider::Slack);
    let second = match dispatcher.next() {
        DispatchStep::Start(delivery) => delivery,
        other => panic!("unexpected step {:?}", other),
    };
    assert_eq!(second.provider, Provider::Wechat);
    assert_eq!(second.body, wechat::AlertProvider::build_http_body(&sample()));

    // Slack answers with a server error, WeChat Work with success.
    let slack_outcome = delivery_result(Some(500));
    let wechat_outcome = delivery_result(Some(200));
    assert_eq!(slack_outcome, Err(DeliveryError::Status(500)));
    assert_eq!(wechat_outcome, Ok(()));
    dispatcher.on_delivered(slack_outcome);
    dispatcher.on_delivered(wechat_outcome);

    // Nothing is tried again, and the next release is taken.
    assert!(matches!(dispatcher.next(), DispatchStep::Receive));
    assert!(dispatcher.on_release(&sample()));
    assert!(matches!(dispatcher.next(), DispatchStep::Start(_)));
}

#[test]
fn one_permit_serves_the_providers_in_turn() {
    let mut dispatcher = Dispatcher::new(both(), 1);
    assert!(dispatcher.on_release(&sample()));
    let first = match dispatcher.next() {
        DispatchStep::Start(delivery) => delivery,
        other => panic!("unexpected step {:?}", other),
    };
    assert_eq!(first.provider, Provider::Slack);
    assert!(matches!(dispatcher.next(), DispatchStep::AwaitDelivery));
    // No release is taken while one is still waiting for its permits.
    assert!(!dispatcher.on_release(&sample()));
    dispatcher.on_delivered(Err(DeliveryError::Transport));
    let second = match dispatcher.next() {
        DispatchStep::Start(delivery) => delivery,
        other => panic!("unexpected step {:?}", other),
    };
    assert_eq!(second.provider, Provider::Wechat);
    // Every delivery of the release has started: the next release may come.
    assert!(matches!(dispatcher.next(), DispatchStep::Receive));
    dispatcher.on_delivered(Ok(()));
    assert!(matches!(dispatcher.next(), DispatchStep::Receive));
}

#[test]
fn closed_queue_drains_what_was_taken() {
    let mut dispatcher = Dispatcher::new(both(), 1);
    assert!(dispatcher.on_release(&sample()));
    dispatcher.on_closed();
    assert!(matches!(dispatcher.next(), DispatchStep::Start(_)));
    assert!(matches!(dispatcher.next(), DispatchStep::AwaitDelivery));
    dispatcher.on_delivered(Ok(()));
    assert!(matches!(dispatcher.next(), DispatchStep::Start(_)));
    dispatcher.on_delivered(Ok(()));
    assert!(matches!(dispatcher.next(), DispatchStep::Exit));
    assert!(!dispatcher.on_release(&sample()));
    assert!(matches!(dispatcher.next(), DispatchStep::Exit));
}

#[test]
fn shutdown_starts_nothing_new_and_waits_for_what_runs() {
    let mut dispatcher = Dispatcher::new(both(), 1);
    assert!(dispatcher.on_release(&sample()));
    assert!(matches!(dispatcher.next(), DispatchStep::Start(_)));
    dispatcher.on_shutdown();
    assert!(matches!(dispatcher.next(), DispatchStep::AwaitDelivery));
    dispatcher.on_delivered(Ok(()));
    assert!(matches!(dispatcher.next(), DispatchStep::Exit));
    assert!(!dispatcher.on_release(&sample()));
}

#[test]
fn idle_alerter_exits_on_shutdown_and_on_closure() {
    let mut halted = Dispatcher::new(Config::default(), ALERT_PERMITS);
    halted.on_shutdown();
    assert!(matches!(halted.next(), DispatchStep::Exit));

    let mut drained = Dispatcher::new(Config::default(), ALERT_PERMITS);
    drained.on_closed();
    assert!(matches!(drained.next(), DispatchStep::Exit));
}

#[test]
fn release_without_enabled_provider_is_dropped() {
    let mut dispatcher = Dispatcher::new(Config::default(), ALERT_PERMITS);
    assert!(dispatcher.on_release(&sample()));
    assert!(matches!(dispatcher.next(), DispatchStep::Receive));
}

#[test]
fn stray_completion_changes_nothing() {
    let mut dispatcher = Dispatcher::new(both(), 2);
    dispatcher.on_delivered(Ok(()));
    assert!(dispatcher.on_release(&sample()));
    assert!(matches!(dispatcher.next(), DispatchStep::Start(_)));
    assert!(matches!(dispatcher.next(), DispatchStep::Start(_)));
    assert!(matches!(dispatcher.next(), DispatchStep::Receive));
}
