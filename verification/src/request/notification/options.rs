use crate::request::payload::Payload;
use vstd::prelude::*;

verus! {

/// The options of a request that travel beside the payload, outside its
/// JSON text.
#[derive(Debug, Clone, Default)]
pub struct NotificationOptions<'a> {
    /// A canonical UUID that identifies the notification.
    pub apns_id: Option<&'a str>,
    /// A UNIX epoch date in seconds until which delivery is retried.
    pub apns_expiration: Option<u64>,
    /// The topic of the remote notification, mostly the app's bundle ID.
    pub apns_topic: Option<&'a str>,
    /// An identifier under which notifications are merged for the user.
    pub apns_collapse_id: Option<&'a str>,
}

/// A builder that turns its content into a [`Payload`].
pub trait NotificationBuilder<'a> {
    /// Generates the request payload for the given device.
    fn build(self, device_token: &'a str, options: NotificationOptions<'a>) -> Payload<'a>;
}

} // verus!
