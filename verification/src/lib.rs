//! Building the JSON payloads of Apple Push Notification service requests.

pub mod error;
pub mod json;
pub mod pkcs12;
pub mod request;

pub use error::Error;
pub use json::{JsonNumber, JsonValue};
pub use request::notification::{
    DefaultAlert, DefaultNotificationBuilder, DefaultSound, NotificationBuilder, NotificationOptions,
    WebNotificationBuilder, WebPushAlert,
};
pub use request::payload::{APSAlert, APSSound, InterruptionLevel, Payload, PayloadLike, APS};
