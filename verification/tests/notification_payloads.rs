use apns_h2::request::notification::{
    DefaultNotificationBuilder, NotificationBuilder, WebNotificationBuilder, WebPushAlert,
};
use apns_h2::request::payload::PayloadLike;
use apns_h2::{JsonNumber, JsonValue};
use serde_json::Value;

fn parse(text: &str) -> Value {
    serde_json::from_str(text).unwrap()
}

fn text(s: &str) -> JsonValue {
    JsonValue::Str(s.to_string())
}

fn object(members: Vec<(&str, JsonValue)>) -> JsonValue {
    JsonValue::Object(members.into_iter().map(|(k, v)| (k.to_string(), v)).collect())
}

fn test_data() -> JsonValue {
    object(vec![
        ("key_str", text("foo")),
        ("key_num", JsonValue::Number(JsonNumber::Unsigned(42))),
        ("key_bool", JsonValue::Bool(false)),
        ("key_struct", object(vec![("nothing", text("here"))])),
    ])
}

fn adventure() -> JsonValue {
    object(vec![
        ("currentHealthLevel", JsonValue::Number(JsonNumber::Unsigned(100))),
        ("eventDescription", text("Adventure has begun!")),
    ])
}

#[test]
fn test_default_notification_with_minimal_required_values() {
    let payload = DefaultNotificationBuilder::new()
        .title("the title")
        .body("the body")
        .build("device-token", Default::default());

    let expected_payload = parse(
        r#"{"aps": {"alert": {"body": "the body", "title": "the title"}, "mutable-content": 0}}"#,
    );

    assert_eq!(expected_payload, parse(&payload.to_json_string().unwrap()));
}

#[test]
fn test_default_notification_with_dismissal_date() {
    let builder = DefaultNotificationBuilder::new()
        .title("Test Title")
        .body("Test Body")
        .dismissal_date(1672531200);

    let payload = builder.build("device-token", Default::default());

    let expected_payload = parse(
        r#"{"aps": {"alert": {"title": "Test Title", "body": "Test Body"},
            "dismissal-date": 1672531200, "mutable-content": 0}}"#,
    );

    assert_eq!(expected_payload, parse(&payload.to_json_string().unwrap()));
}

#[test]
fn test_default_notification_with_full_data() {
    let builder = DefaultNotificationBuilder::new()
        .title("the title")
        .body("the body")
        .badge(420)
        .category("cat1")
        .sound("prööt")
        .critical(true, Some(JsonNumber::Float("1.0".to_string())))
        .mutable_content()
        .action_loc_key("PLAY")
        .launch_image("foo.jpg")
        .loc_args(&["argh", "narf"])
        .title_loc_key("STOP")
        .title_loc_args(&["herp", "derp"])
        .loc_key("PAUSE")
        .loc_args(&["narf", "derp"]);

    let payload = builder.build("device-token", Default::default());

    let expected_payload = parse(
        r#"{
            "aps": {
                "alert": {
                    "action-loc-key": "PLAY",
                    "body": "the body",
                    "launch-image": "foo.jpg",
                    "loc-args": ["narf", "derp"],
                    "loc-key": "PAUSE",
                    "title": "the title",
                    "title-loc-args": ["herp", "derp"],
                    "title-loc-key": "STOP"
                },
                "badge": 420,
                "sound": {
                    "critical": 1,
                    "name": "prööt",
                    "volume": 1.0
                },
                "category": "cat1",
                "mutable-content": 1
            }
        }"#,
    );

    assert_eq!(expected_payload, parse(&payload.to_json_string().unwrap()));
}

#[test]
fn test_notification_with_custom_data_1() {
    let mut payload = DefaultNotificationBuilder::new()
        .title("the title")
        .body("the body")
        .build("device-token", Default::default());

    payload.add_custom_data("custom", test_data()).unwrap();

    let expected_payload = parse(
        r#"{
            "custom": {
                "key_str": "foo",
                "key_num": 42,
                "key_bool": false,
                "key_struct": {"nothing": "here"}
            },
            "aps": {
                "alert": {"body": "the body", "title": "the title"},
                "mutable-content": 0
            }
        }"#,
    );

    assert_eq!(expected_payload, parse(&payload.to_json_string().unwrap()));
}

#[test]
fn test_notification_with_custom_data_2() {
    let mut payload = DefaultNotificationBuilder::new()
        .body("kulli")
        .build("device-token", Default::default());

    payload.add_custom_data("custom", test_data()).unwrap();

    let expected_payload = parse(
        r#"{
            "custom": {
                "key_str": "foo",
                "key_num": 42,
                "key_bool": false,
                "key_struct": {"nothing": "here"}
            },
            "aps": {"alert": "kulli", "mutable-content": 0}
        }"#,
    );

    assert_eq!(expected_payload, parse(&payload.to_json_string().unwrap()));
}

#[test]
fn test_silent_notification_with_no_content() {
    let payload = DefaultNotificationBuilder::new()
        .content_available()
        .build("device-token", Default::default());

    let expected_payload = parse(r#"{"aps": {"content-available": 1, "mutable-content": 0}}"#);

    assert_eq!(expected_payload, parse(&payload.to_json_string().unwrap()));
}

#[test]
fn test_silent_notification_with_custom_data() {
    let mut payload = DefaultNotificationBuilder::new()
        .content_available()
        .build("device-token", Default::default());

    payload.add_custom_data("custom", test_data()).unwrap();

    let expected_payload = parse(
        r#"{
            "aps": {"content-available": 1, "mutable-content": 0},
            "custom": {
                "key_str": "foo",
                "key_num": 42,
                "key_bool": false,
                "key_struct": {"nothing": "here"}
            }
        }"#,
    );

    assert_eq!(expected_payload, parse(&payload.to_json_string().unwrap()));
}

#[test]
fn test_silent_notification_with_custom_hashmap() {
    let test_data = object(vec![("key_str", text("foo")), ("key_str2", text("bar"))]);

    let mut payload = DefaultNotificationBuilder::new()
        .content_available()
        .build("device-token", Default::default());

    payload.add_custom_data("custom", test_data).unwrap();

    let expected_payload = parse(
        r#"{
            "aps": {"content-available": 1, "mutable-content": 0},
            "custom": {"key_str": "foo", "key_str2": "bar"}
        }"#,
    );

    assert_eq!(expected_payload, parse(&payload.to_json_string().unwrap()));
}

#[test]
fn test_webpush_notification() {
    let payload = WebNotificationBuilder::new(
        WebPushAlert { action: "View", title: "Hello", body: "world" },
        &["arg1"],
    )
    .build("device-token", Default::default())
    .to_json_string()
    .unwrap();

    let expected_payload = parse(
        r#"{
            "aps": {
                "alert": {"title": "Hello", "body": "world", "action": "View"},
                "url-args": ["arg1"]
            }
        }"#,
    );

    assert_eq!(expected_payload, parse(&payload));
}

#[test]
fn test_interruption_level_serialization() {
    let builder = DefaultNotificationBuilder::new().set_title("Test Title").active_interruption_level();
    let payload = builder.build("test-token", Default::default());

    let json = payload.to_json_string().unwrap();
    assert!(json.contains("\"interruption-level\":\"active\""));

    let builder = DefaultNotificationBuilder::new().set_title("Test Title").critical_interruption_level();
    let payload = builder.build("test-token", Default::default());

    let json = payload.to_json_string().unwrap();
    assert!(json.contains("\"interruption-level\":\"critical\""));

    let builder = DefaultNotificationBuilder::new().set_title("Test Title").passive_interruption_level();
    let payload = builder.build("test-token", Default::default());

    let json = payload.to_json_string().unwrap();
    assert!(json.contains("\"interruption-level\":\"passive\""));

    let builder =
        DefaultNotificationBuilder::new().set_title("Test Title").time_sensitive_interruption_level();
    let payload = builder.build("test-token", Default::default());

    let json = payload.to_json_string().unwrap();
    assert!(json.contains("\"interruption-level\":\"time-sensitive\""));
}

#[test]
fn test_dismissal_date_serialization() {
    let builder = DefaultNotificationBuilder::new().set_title("Test Title").dismissal_date(1672531200);
    let payload = builder.build("test-token", Default::default());

    let json = payload.to_json_string().unwrap();
    assert!(json.contains("\"dismissal-date\":1672531200"));
}

#[test]
fn test_live_activity_payload_serialization() {
    let content_state = adventure();
    let attributes = adventure();

    let builder = DefaultNotificationBuilder::new()
        .timestamp(1234)
        .event("start")
        .content_state(&content_state)
        .attributes_type("AdventureAttributes")
        .attributes(&attributes)
        .title("Adventure Alert")
        .body("Your adventure has started!");

    let payload = builder.build("test-token", Default::default());
    let json_str = payload.to_json_string().unwrap();

    assert!(json_str.contains("\"timestamp\":1234"));
    assert!(json_str.contains("\"event\":\"start\""));
    assert!(json_str.contains(
        "\"content-state\":{\"currentHealthLevel\":100,\"eventDescription\":\"Adventure has begun!\"}"
    ));
    assert!(json_str.contains("\"attributes-type\":\"AdventureAttributes\""));
    assert!(json_str
        .contains("\"attributes\":{\"currentHealthLevel\":100,\"eventDescription\":\"Adventure has begun!\"}"));

    let builder = DefaultNotificationBuilder::new()
        .event("start")
        .input_push_channel("dHN0LXNyY2gtY2hubA==")
        .attributes_type("AdventureAttributes")
        .attributes(&attributes);

    let payload = builder.build("test-token", Default::default());
    let json_str = payload.to_json_string().unwrap();

    assert!(json_str.contains("\"input-push-channel\":\"dHN0LXNyY2gtY2hubA==\""));

    let builder = DefaultNotificationBuilder::new()
        .event("start")
        .input_push_token()
        .attributes_type("AdventureAttributes")
        .attributes(&attributes);

    let payload = builder.build("test-token", Default::default());
    let json_str = payload.to_json_string().unwrap();

    assert!(json_str.contains("\"input-push-token\":1"));
}
