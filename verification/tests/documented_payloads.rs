use apns_h2::request::notification::{
    DefaultNotificationBuilder, NotificationBuilder, WebNotificationBuilder, WebPushAlert,
};
use apns_h2::request::payload::{InterruptionLevel, PayloadLike};
use apns_h2::{JsonNumber, JsonValue};

fn json_of(builder: DefaultNotificationBuilder<'_>) -> String {
    builder.build("token", Default::default()).to_json_string().unwrap()
}

fn adventure() -> JsonValue {
    JsonValue::Object(vec![
        ("currentHealthLevel".to_string(), JsonValue::Number(JsonNumber::Unsigned(100))),
        ("eventDescription".to_string(), JsonValue::Str("Adventure has begun!".to_string())),
    ])
}

#[test]
fn new_builder_with_title_and_body() {
    assert_eq!(
        "{\"aps\":{\"alert\":{\"title\":\"a title\",\"body\":\"a body\"},\"mutable-content\":0}}",
        json_of(DefaultNotificationBuilder::new().title("a title").body("a body"))
    );
}

#[test]
fn title_only() {
    assert_eq!(
        "{\"aps\":{\"alert\":{\"title\":\"a title\"},\"mutable-content\":0}}",
        json_of(DefaultNotificationBuilder::new().title("a title"))
    );
}

#[test]
fn critical_sound_without_volume() {
    assert_eq!(
        "{\"aps\":{\"sound\":{\"critical\":1},\"mutable-content\":0}}",
        json_of(DefaultNotificationBuilder::new().critical(true, None))
    );
}

#[test]
fn not_critical_drops_the_volume() {
    let builder = DefaultNotificationBuilder::new()
        .sound("ping")
        .critical(true, Some(JsonNumber::Float("0.5".to_string())))
        .critical(false, Some(JsonNumber::Float("0.7".to_string())));
    assert_eq!("{\"aps\":{\"sound\":\"ping\",\"mutable-content\":0}}", json_of(builder));
}

#[test]
fn subtitle_only() {
    assert_eq!(
        "{\"aps\":{\"alert\":{\"subtitle\":\"a subtitle\"},\"mutable-content\":0}}",
        json_of(DefaultNotificationBuilder::new().subtitle("a subtitle"))
    );
}

#[test]
fn body_only_is_a_plain_alert() {
    assert_eq!(
        "{\"aps\":{\"alert\":\"a body\",\"mutable-content\":0}}",
        json_of(DefaultNotificationBuilder::new().body("a body"))
    );
}

#[test]
fn badge_only() {
    assert_eq!(
        "{\"aps\":{\"badge\":4,\"mutable-content\":0}}",
        json_of(DefaultNotificationBuilder::new().badge(4))
    );
}

#[test]
fn sound_by_name() {
    assert_eq!(
        "{\"aps\":{\"alert\":{\"title\":\"a title\"},\"sound\":\"ping\",\"mutable-content\":0}}",
        json_of(DefaultNotificationBuilder::new().title("a title").sound("ping"))
    );
}

#[test]
fn thread_id_set() {
    assert_eq!(
        "{\"aps\":{\"alert\":{\"title\":\"a title\"},\"thread-id\":\"my-thread\",\"mutable-content\":0}}",
        json_of(DefaultNotificationBuilder::new().title("a title").thread_id("my-thread"))
    );
}

#[test]
fn category_set() {
    assert_eq!(
        "{\"aps\":{\"alert\":{\"title\":\"a title\"},\"category\":\"cat1\",\"mutable-content\":0}}",
        json_of(DefaultNotificationBuilder::new().title("a title").category("cat1"))
    );
}

#[test]
fn localisation_fields() {
    assert_eq!(
        "{\"aps\":{\"alert\":{\"title\":\"a title\",\"title-loc-key\":\"play\"},\"mutable-content\":0}}",
        json_of(DefaultNotificationBuilder::new().title("a title").title_loc_key("play"))
    );
    assert_eq!(
        "{\"aps\":{\"alert\":{\"title\":\"a title\",\"title-loc-args\":[\"foo\",\"bar\"]},\"mutable-content\":0}}",
        json_of(DefaultNotificationBuilder::new().title("a title").title_loc_args(&["foo", "bar"]))
    );
    assert_eq!(
        "{\"aps\":{\"alert\":{\"title\":\"a title\",\"action-loc-key\":\"stop\"},\"mutable-content\":0}}",
        json_of(DefaultNotificationBuilder::new().title("a title").action_loc_key("stop"))
    );
    assert_eq!(
        "{\"aps\":{\"alert\":{\"title\":\"a title\",\"loc-key\":\"lol\"},\"mutable-content\":0}}",
        json_of(DefaultNotificationBuilder::new().title("a title").loc_key("lol"))
    );
    assert_eq!(
        "{\"aps\":{\"alert\":{\"title\":\"a title\",\"loc-args\":[\"omg\",\"foo\"]},\"mutable-content\":0}}",
        json_of(DefaultNotificationBuilder::new().title("a title").loc_args(&["omg", "foo"]))
    );
    assert_eq!(
        "{\"aps\":{\"alert\":{\"title\":\"a title\",\"launch-image\":\"cat.png\"},\"mutable-content\":0}}",
        json_of(DefaultNotificationBuilder::new().title("a title").launch_image("cat.png"))
    );
}

#[test]
fn mutable_and_available_content() {
    assert_eq!(
        "{\"aps\":{\"alert\":{\"title\":\"a title\"},\"mutable-content\":1}}",
        json_of(DefaultNotificationBuilder::new().title("a title").mutable_content())
    );
    assert_eq!(
        "{\"aps\":{\"alert\":{\"title\":\"a title\"},\"content-available\":1,\"mutable-content\":0}}",
        json_of(DefaultNotificationBuilder::new().title("a title").content_available())
    );
}

#[test]
fn interruption_levels_in_order() {
    let expected = |level: &str| {
        format!(
            "{{\"aps\":{{\"alert\":{{\"title\":\"a title\"}},\"mutable-content\":0,\"interruption-level\":\"{}\"}}}}",
            level
        )
    };
    let b = || DefaultNotificationBuilder::new().title("a title");
    assert_eq!(expected("active"), json_of(b().active_interruption_level()));
    assert_eq!(expected("critical"), json_of(b().critical_interruption_level()));
    assert_eq!(expected("passive"), json_of(b().passive_interruption_level()));
    assert_eq!(expected("time-sensitive"), json_of(b().time_sensitive_interruption_level()));
    assert_eq!(expected("active"), json_of(b().interruption_level(InterruptionLevel::Active)));
}

#[test]
fn live_activity_fields() {
    assert_eq!(
        "{\"aps\":{\"mutable-content\":0,\"timestamp\":1234}}",
        json_of(DefaultNotificationBuilder::new().timestamp(1234))
    );
    assert_eq!(
        "{\"aps\":{\"mutable-content\":0,\"event\":\"start\"}}",
        json_of(DefaultNotificationBuilder::new().event("start"))
    );
    assert_eq!(
        "{\"aps\":{\"mutable-content\":0,\"attributes-type\":\"AdventureAttributes\"}}",
        json_of(DefaultNotificationBuilder::new().attributes_type("AdventureAttributes"))
    );
    assert_eq!(
        "{\"aps\":{\"mutable-content\":0,\"input-push-channel\":\"dHN0LXNyY2gtY2hubA==\"}}",
        json_of(DefaultNotificationBuilder::new().input_push_channel("dHN0LXNyY2gtY2hubA=="))
    );
    assert_eq!(
        "{\"aps\":{\"mutable-content\":0,\"input-push-token\":1}}",
        json_of(DefaultNotificationBuilder::new().input_push_token())
    );
    assert!(json_of(DefaultNotificationBuilder::new().content_state(&adventure())).contains(
        "\"content-state\":{\"currentHealthLevel\":100,\"eventDescription\":\"Adventure has begun!\"}"
    ));
    assert!(json_of(DefaultNotificationBuilder::new().attributes(&adventure())).contains(
        "\"attributes\":{\"currentHealthLevel\":100,\"eventDescription\":\"Adventure has begun!\"}"
    ));
}

#[test]
fn dismissal_date_after_mutable_content() {
    assert_eq!(
        "{\"aps\":{\"alert\":{\"title\":\"a title\"},\"mutable-content\":0,\"dismissal-date\":1672531200}}",
        json_of(DefaultNotificationBuilder::new().title("a title").dismissal_date(1672531200))
    );
}

#[test]
fn custom_data_follows_aps() {
    let mut payload = DefaultNotificationBuilder::new()
        .set_content_available()
        .build("token", Default::default());
    let data = JsonValue::Object(vec![("foo".to_string(), JsonValue::Str("bar".to_string()))]);
    payload.add_custom_data("foo_data", data).unwrap();
    assert_eq!(
        "{\"aps\":{\"content-available\":1,\"mutable-content\":0},\"foo_data\":{\"foo\":\"bar\"}}",
        &payload.to_json_string().unwrap()
    );
}

fn web_builder<'a>() -> WebNotificationBuilder<'a> {
    WebNotificationBuilder::new(WebPushAlert { title: "Hello", body: "World", action: "View" }, &["arg1"])
}

#[test]
fn web_push_documented_payloads() {
    let base = "{\"aps\":{\"alert\":{\"title\":\"Hello\",\"body\":\"World\",\"action\":\"View\"},";
    assert_eq!(
        format!("{}\"url-args\":[\"arg1\"]}}}}", base),
        web_builder().build("token", Default::default()).to_json_string().unwrap()
    );
    let mut b = web_builder();
    b.set_sound("meow");
    assert_eq!(
        format!("{}\"sound\":\"meow\",\"url-args\":[\"arg1\"]}}}}", base),
        b.build("token", Default::default()).to_json_string().unwrap()
    );
    let levels: [(&str, fn(&mut WebNotificationBuilder<'static>)); 5] = [
        ("active", |b| {
            b.set_active_interruption_level();
        }),
        ("critical", |b| {
            b.set_critical_interruption_level();
        }),
        ("passive", |b| {
            b.set_passive_interruption_level();
        }),
        ("time-sensitive", |b| {
            b.set_time_sensitive_interruption_level();
        }),
        ("active", |b| {
            b.set_interruption_level(InterruptionLevel::Active);
        }),
    ];
    for (name, set) in levels {
        let mut b = web_builder();
        set(&mut b);
        assert_eq!(
            format!("{}\"interruption-level\":\"{}\",\"url-args\":[\"arg1\"]}}}}", base, name),
            b.build("token", Default::default()).to_json_string().unwrap()
        );
    }
}

#[test]
fn web_setters_chain() {
    let mut b = web_builder();
    b.set_sound("a").set_passive_interruption_level().set_sound("b");
    let text = b.build("token", Default::default()).to_json_string().unwrap();
    assert!(text.contains("\"sound\":\"b\""));
    assert!(text.contains("\"interruption-level\":\"passive\""));
}
