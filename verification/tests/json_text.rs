use apns_h2::json::{decimal_string, number_string, quoted_string, value_string};
use apns_h2::request::notification::bool_as_u8::{deserialize, serialize, NotZeroOrOne};
use apns_h2::request::notification::{DefaultNotificationBuilder, NotificationBuilder, NotificationOptions};
use apns_h2::request::payload::PayloadLike;
use apns_h2::{Error, JsonNumber, JsonValue};

#[test]
fn strings_are_escaped_as_json_does() {
    assert_eq!("\"plain\"", quoted_string("plain"));
    assert_eq!("\"a\\\"b\\\\c\"", quoted_string("a\"b\\c"));
    assert_eq!("\"\\n\\r\\t\\b\\f\"", quoted_string("\n\r\t\u{8}\u{c}"));
    assert_eq!("\"\\u0001\\u001f\"", quoted_string("\u{1}\u{1f}"));
    assert_eq!("\"prööt/\u{7f}\"", quoted_string("prööt/\u{7f}"));
    assert_eq!("\"\"", quoted_string(""));
}

#[test]
fn escaped_strings_read_back() {
    for s in ["plain", "a\"b\\c", "\n\r\t\u{8}\u{c}", "\u{1}\u{1f}", "prööt 👍", ""] {
        let back: String = serde_json::from_str(&quoted_string(s)).unwrap();
        assert_eq!(s, back);
    }
}

#[test]
fn numbers_in_decimal() {
    assert_eq!("0", decimal_string(0));
    assert_eq!("7", decimal_string(7));
    assert_eq!("1672531200", decimal_string(1672531200));
    assert_eq!("18446744073709551615", decimal_string(u64::MAX));
    assert_eq!("-42", number_string(&JsonNumber::Signed(-42)));
    assert_eq!("42", number_string(&JsonNumber::Signed(42)));
    assert_eq!("-9223372036854775808", number_string(&JsonNumber::Signed(i64::MIN)));
    assert_eq!("1.5", number_string(&JsonNumber::Float("1.5".to_string())));
}

#[test]
fn values_in_compact_form() {
    let v = JsonValue::Array(vec![
        JsonValue::Null,
        JsonValue::Bool(true),
        JsonValue::Bool(false),
        JsonValue::Object(vec![]),
        JsonValue::Array(vec![]),
        JsonValue::Object(vec![
            ("k\"".to_string(), JsonValue::Number(JsonNumber::Unsigned(1))),
            ("z".to_string(), JsonValue::Str("x".to_string())),
        ]),
    ]);
    assert_eq!("[null,true,false,{},[],{\"k\\\"\":1,\"z\":\"x\"}]", value_string(&v));
    assert_eq!(value_string(&v), value_string(&v.clone()));
}

#[test]
fn custom_data_is_kept_in_key_order_and_replaced() {
    let mut payload = DefaultNotificationBuilder::new().build("token", Default::default());
    payload.add_custom_data("zeta", JsonValue::Bool(true)).unwrap();
    payload.add_custom_data("alpha", JsonValue::Null).unwrap();
    payload.add_custom_data("ärger", JsonValue::Null).unwrap();
    payload.add_custom_data("Zulu", JsonValue::Null).unwrap();
    payload.add_custom_data("alpha", JsonValue::Number(JsonNumber::Unsigned(3))).unwrap();
    assert_eq!(
        "{\"aps\":{\"mutable-content\":0},\"Zulu\":null,\"alpha\":3,\"zeta\":true,\"ärger\":null}",
        payload.to_json_string().unwrap()
    );
}

#[test]
fn custom_data_order_of_adding_does_not_show() {
    let mut first = DefaultNotificationBuilder::new().build("token", Default::default());
    first.add_custom_data("b", JsonValue::Null).unwrap().add_custom_data("a", JsonValue::Bool(false)).unwrap();
    let mut second = DefaultNotificationBuilder::new().build("token", Default::default());
    second.add_custom_data("a", JsonValue::Bool(false)).unwrap().add_custom_data("b", JsonValue::Null).unwrap();
    assert_eq!(first.to_json_string().unwrap(), second.to_json_string().unwrap());
}

#[test]
fn custom_key_aps_is_written_twice() {
    let mut payload = DefaultNotificationBuilder::new().build("token", Default::default());
    payload.add_custom_data("aps", JsonValue::Null).unwrap();
    assert_eq!("{\"aps\":{\"mutable-content\":0},\"aps\":null}", payload.to_json_string().unwrap());
}

#[test]
fn payload_keeps_token_and_options() {
    let options = NotificationOptions { apns_topic: Some("com.example"), ..Default::default() };
    let payload = DefaultNotificationBuilder::new().build("the-device", options);
    assert_eq!("the-device", payload.get_device_token());
    assert_eq!(Some("com.example"), payload.get_options().apns_topic);
}

#[test]
fn bools_as_numbers() {
    assert_eq!(0, serialize(&false));
    assert_eq!(1, serialize(&true));
    assert!(matches!(deserialize(0), Ok(false)));
    assert!(matches!(deserialize(1), Ok(true)));
    assert!(matches!(deserialize(2), Err(NotZeroOrOne(2))));
    assert!(matches!(deserialize(255), Err(NotZeroOrOne(255))));
}

#[test]
fn unreadable_pkcs12_is_an_invalid_certificate() {
    assert!(matches!(apns_h2::pkcs12::parse_pkcs12(&[], "pw"), Err(Error::InvalidCertificate)));
    assert!(matches!(
        apns_h2::pkcs12::parse_pkcs12(&[0x30, 0x03, 0x02, 0x01, 0x03], ""),
        Err(Error::InvalidCertificate)
    ));
}
