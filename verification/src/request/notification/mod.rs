pub mod bool_as_u8;
pub mod default;
pub mod options;
pub mod web;

pub use default::{DefaultAlert, DefaultNotificationBuilder, DefaultSound};
pub use options::{NotificationBuilder, NotificationOptions};
pub use web::{WebNotificationBuilder, WebPushAlert};
