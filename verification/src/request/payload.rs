use crate::error::Error;
use crate::json::{
    join, opt_json, opt_member, opt_quoted, opt_str, opt_string, opt_string_array, opt_u32_text,
    opt_u64_text, opt_u8_text, opt_value_text, quoted, quoted_string, strs_model, JsonModel,
    JsonValue, ObjectWriter,
};
use crate::request::custom_data::{custom_members, entries_map, keys_sorted, CustomData};
use crate::request::notification::default::{
    default_alert_members, default_sound_members, AlertModel, SoundModel,
};
use crate::request::notification::web::{web_push_members, WebPushModel};
use crate::request::notification::{DefaultAlert, DefaultSound, NotificationOptions, WebPushAlert};
use vstd::prelude::*;

verus! {

/// Interruption level for notification delivery and presentation.
#[derive(Debug, Clone, Copy, PartialEq, Eq, Structural)]
pub enum InterruptionLevel {
    /// The system presents the notification immediately, lights up the screen, and can play a sound.
    Active,
    /// The system presents the notification immediately, lights up the screen, and bypasses the mute switch to play a sound.
    Critical,
    /// The system adds the notification to the notification list without lighting up the screen or playing a sound.
    Passive,
    /// The system presents the notification immediately, lights up the screen, can play a sound, and breaks through system notification controls.
    TimeSensitive,
}

/// The JSON text of an interruption level.
pub open spec fn level_text(l: InterruptionLevel) -> Seq<char> {
    match l {
        InterruptionLevel::Active => "\"active\""@,
        InterruptionLevel::Critical => "\"critical\""@,
        InterruptionLevel::Passive => "\"passive\""@,
        InterruptionLevel::TimeSensitive => "\"time-sensitive\""@,
    }
}

/// Returns the JSON text of an interruption level.
pub fn level_string(l: InterruptionLevel) -> (r: String)
    ensures
        r@ == level_text(l),
{
    match l {
        InterruptionLevel::Active => String::from_str("\"active\""),
        InterruptionLevel::Critical => String::from_str("\"critical\""),
        InterruptionLevel::Passive => String::from_str("\"passive\""),
        InterruptionLevel::TimeSensitive => String::from_str("\"time-sensitive\""),
    }
}

/// Different notification content types.
#[derive(Debug, Clone)]
pub enum APSAlert<'a> {
    /// A notification that supports all of the iOS features
    Default(DefaultAlert<'a>),
    /// Safari web push notification
    WebPush(WebPushAlert<'a>),
    /// A notification with just a body
    Body(&'a str),
}

/// Different notification sound types.
#[derive(Debug, Clone)]
pub enum APSSound<'a> {
    /// A critical notification (supported only on >= iOS 12)
    Critical(DefaultSound<'a>),
    /// Name for a notification sound
    Sound(&'a str),
}

/// The model of an [`APSAlert`].
pub enum AlertContent {
    Default(AlertModel),
    WebPush(WebPushModel),
    Body(Seq<char>),
}

/// The model of an [`APSSound`].
pub enum SoundContent {
    Critical(SoundModel),
    Sound(Seq<char>),
}

impl<'a> View for APSAlert<'a> {
    type V = AlertContent;

    open spec fn view(&self) -> AlertContent {
        match self {
            APSAlert::Default(d) => AlertContent::Default(d@),
            APSAlert::WebPush(w) => AlertContent::WebPush(w@),
            APSAlert::Body(b) => AlertContent::Body(b@),
        }
    }
}

impl<'a> View for APSSound<'a> {
    type V = SoundContent;

    open spec fn view(&self) -> SoundContent {
        match self {
            APSSound::Critical(s) => SoundContent::Critical(s@),
            APSSound::Sound(n) => SoundContent::Sound(n@),
        }
    }
}

/// The JSON text of an alert: an object, or a string for a body alone.
pub open spec fn alert_text(a: AlertContent) -> Seq<char> {
    match a {
        AlertContent::Default(m) => seq!['{'] + join(default_alert_members(m)) + seq!['}'],
        AlertContent::WebPush(w) => seq!['{'] + join(web_push_members(w)) + seq!['}'],
        AlertContent::Body(b) => quoted(b),
    }
}

/// The JSON text of a sound: an object for a critical sound, or the name.
pub open spec fn sound_text(s: SoundContent) -> Seq<char> {
    match s {
        SoundContent::Critical(m) => seq!['{'] + join(default_sound_members(m)) + seq!['}'],
        SoundContent::Sound(n) => quoted(n),
    }
}

pub open spec fn opt_alert(o: Option<APSAlert>) -> Option<AlertContent> {
    match o {
        Some(a) => Some(a@),
        None => None,
    }
}

pub open spec fn opt_sound(o: Option<APSSound>) -> Option<SoundContent> {
    match o {
        Some(s) => Some(s@),
        None => None,
    }
}

pub open spec fn opt_strs(o: Option<&[&str]>) -> Option<Seq<Seq<char>>> {
    match o {
        Some(a) => Some(strs_model(a@)),
        None => None,
    }
}

pub open spec fn opt_alert_text(o: Option<AlertContent>) -> Option<Seq<char>> {
    match o {
        Some(a) => Some(alert_text(a)),
        None => None,
    }
}

pub open spec fn opt_sound_text(o: Option<SoundContent>) -> Option<Seq<char>> {
    match o {
        Some(s) => Some(sound_text(s)),
        None => None,
    }
}

pub open spec fn opt_level_text(o: Option<InterruptionLevel>) -> Option<Seq<char>> {
    match o {
        Some(l) => Some(level_text(l)),
        None => None,
    }
}

impl<'a> APSAlert<'a> {
    /// Returns the JSON text of this alert.
    pub fn json_string(&self) -> (r: String)
        ensures
            r@ == alert_text(self@),
    {
        let mut r = String::new();
        match self {
            APSAlert::Default(d) => d.write_json(&mut r),
            APSAlert::WebPush(w) => w.write_json(&mut r),
            APSAlert::Body(b) => {
                crate::json::write_quoted(&mut r, b);
            },
        }
        assert(r@ =~= alert_text(self@));
        r
    }
}

impl<'a> APSSound<'a> {
    /// Returns the JSON text of this sound.
    pub fn json_string(&self) -> (r: String)
        ensures
            r@ == sound_text(self@),
    {
        let mut r = String::new();
        match self {
            APSSound::Critical(s) => s.write_json(&mut r),
            APSSound::Sound(n) => {
                crate::json::write_quoted(&mut r, n);
            },
        }
        assert(r@ =~= sound_text(self@));
        r
    }
}

/// The pre-defined notification data.
#[derive(Debug, Clone)]
pub struct APS<'a> {
    /// The notification content. Can be empty for silent notifications.
    pub alert: Option<APSAlert<'a>>,
    /// A number shown on top of the app icon.
    pub badge: Option<u32>,
    /// The name of the sound file to play when user receives the notification.
    pub sound: Option<APSSound<'a>>,
    /// An app-specific identifier for grouping related notifications.
    pub thread_id: Option<&'a str>,
    /// Set to one for silent notifications.
    pub content_available: Option<u8>,
    /// When a notification includes the category key, the system displays the
    /// actions for that category as buttons in the banner or alert interface.
    pub category: Option<&'a str>,
    /// If set to one, the app can change the notification content before
    /// displaying it to the user.
    pub mutable_content: Option<u8>,
    /// Interruption level for the notification.
    pub interruption_level: Option<InterruptionLevel>,
    /// The date when the system should automatically remove the notification.
    pub dismissal_date: Option<u64>,
    /// Arguments for the URL of a Safari web push notification.
    pub url_args: Option<&'a [&'a str]>,
    /// Live Activity: Timestamp for the Live Activity update.
    pub timestamp: Option<u64>,
    /// Live Activity: Event type ("start" to begin a Live Activity).
    pub event: Option<&'a str>,
    /// Live Activity: Content state with dynamic data for the Live Activity.
    pub content_state: Option<JsonValue>,
    /// Live Activity: Type of attributes for the Live Activity.
    pub attributes_type: Option<&'a str>,
    /// Live Activity: Attributes data for the Live Activity.
    pub attributes: Option<JsonValue>,
    /// Live Activity: Input push channel ID for iOS 18+ channel-based updates.
    pub input_push_channel: Option<&'a str>,
    /// Live Activity: Set to 1 to request a new push token for iOS 18+ token-based updates.
    pub input_push_token: Option<u8>,
}

/// The model of an [`APS`].
pub struct ApsModel {
    pub alert: Option<AlertContent>,
    pub badge: Option<u32>,
    pub sound: Option<SoundContent>,
    pub thread_id: Option<Seq<char>>,
    pub content_available: Option<u8>,
    pub category: Option<Seq<char>>,
    pub mutable_content: Option<u8>,
    pub interruption_level: Option<InterruptionLevel>,
    pub dismissal_date: Option<u64>,
    pub url_args: Option<Seq<Seq<char>>>,
    pub timestamp: Option<u64>,
    pub event: Option<Seq<char>>,
    pub content_state: Option<JsonModel>,
    pub attributes_type: Option<Seq<char>>,
    pub attributes: Option<JsonModel>,
    pub input_push_channel: Option<Seq<char>>,
    pub input_push_token: Option<u8>,
}

impl<'a> View for APS<'a> {
    type V = ApsModel;

    open spec fn view(&self) -> ApsModel {
        ApsModel {
            alert: opt_alert(self.alert),
            badge: self.badge,
            sound: opt_sound(self.sound),
            thread_id: opt_str(self.thread_id),
            content_available: self.content_available,
            category: opt_str(self.category),
            mutable_content: self.mutable_content,
            interruption_level: self.interruption_level,
            dismissal_date: self.dismissal_date,
            url_args: opt_strs(self.url_args),
            timestamp: self.timestamp,
            event: opt_str(self.event),
            content_state: opt_json(self.content_state),
            attributes_type: opt_str(self.attributes_type),
            attributes: opt_json(self.attributes),
            input_push_channel: opt_str(self.input_push_channel),
            input_push_token: self.input_push_token,
        }
    }
}

/// Members already written, followed by the members of the `aps` object
/// for the content of the notification: alert, badge, sound, thread, availability and category.
pub open spec fn with_content_members(pre: Seq<Seq<char>>, m: ApsModel) -> Seq<Seq<char>> {
    pre
        + opt_member("\"alert\":"@, opt_alert_text(m.alert))
        + opt_member("\"badge\":"@, opt_u32_text(m.badge))
        + opt_member("\"sound\":"@, opt_sound_text(m.sound))
        + opt_member("\"thread-id\":"@, opt_quoted(m.thread_id))
        + opt_member("\"content-available\":"@, opt_u8_text(m.content_available))
        + opt_member("\"category\":"@, opt_quoted(m.category))
}

/// Members already written, followed by the members of the `aps` object
/// for how it is delivered: mutable content, interruption level, dismissal date, URL arguments and timestamp.
pub open spec fn with_delivery_members(pre: Seq<Seq<char>>, m: ApsModel) -> Seq<Seq<char>> {
    pre
        + opt_member("\"mutable-content\":"@, opt_u8_text(m.mutable_content))
        + opt_member("\"interruption-level\":"@, opt_level_text(m.interruption_level))
        + opt_member("\"dismissal-date\":"@, opt_u64_text(m.dismissal_date))
        + opt_member("\"url-args\":"@, opt_string_array(m.url_args))
        + opt_member("\"timestamp\":"@, opt_u64_text(m.timestamp))
}

/// Members already written, followed by the members of the `aps` object
/// for the live-activity fields.
pub open spec fn with_live_members(pre: Seq<Seq<char>>, m: ApsModel) -> Seq<Seq<char>> {
    pre
        + opt_member("\"event\":"@, opt_quoted(m.event))
        + opt_member("\"content-state\":"@, opt_value_text(m.content_state))
        + opt_member("\"attributes-type\":"@, opt_quoted(m.attributes_type))
        + opt_member("\"attributes\":"@, opt_value_text(m.attributes))
        + opt_member("\"input-push-channel\":"@, opt_quoted(m.input_push_channel))
        + opt_member("\"input-push-token\":"@, opt_u8_text(m.input_push_token))
}

/// The members of the `aps` object, in order; absent fields are left out.
pub open spec fn aps_members(m: ApsModel) -> Seq<Seq<char>> {
    with_live_members(with_delivery_members(with_content_members(Seq::empty(), m), m), m)
}

/// The JSON text of the `aps` object.
pub open spec fn aps_text(m: ApsModel) -> Seq<char> {
    seq!['{'] + join(aps_members(m)) + seq!['}']
}

impl<'a> APS<'a> {
    /// Appends the members for the content of the notification.
    fn write_content_members(&self, out: &mut String, w: &mut ObjectWriter)
        requires
            old(w).inv(old(out)@),
        ensures
            final(w).inv(final(out)@),
            final(w).start == old(w).start,
            final(w).members@ == with_content_members(old(w).members@, self@),
    {
        let ghost before = w.members@;
        let ghost m = self@;
        let alert = match &self.alert {
            Some(a) => Some(a.json_string()),
            None => None,
        };
        assert(opt_string(alert) == opt_alert_text(m.alert));
        w.member_opt(out, "\"alert\":", alert);
        w.member_opt(out, "\"badge\":", crate::json::opt_u32_string(self.badge));
        let sound = match &self.sound {
            Some(s) => Some(s.json_string()),
            None => None,
        };
        assert(opt_string(sound) == opt_sound_text(m.sound));
        w.member_opt(out, "\"sound\":", sound);
        w.member_opt(out, "\"thread-id\":", crate::json::opt_quoted_string(self.thread_id));
        w.member_opt(
            out,
            "\"content-available\":",
            crate::json::opt_u8_string(self.content_available),
        );
        w.member_opt(out, "\"category\":", crate::json::opt_quoted_string(self.category));
        assert(w.members@ == with_content_members(before, m));
    }

    /// Appends the members for how the notification is delivered.
    fn write_delivery_members(&self, out: &mut String, w: &mut ObjectWriter)
        requires
            old(w).inv(old(out)@),
        ensures
            final(w).inv(final(out)@),
            final(w).start == old(w).start,
            final(w).members@ == with_delivery_members(old(w).members@, self@),
    {
        let ghost before = w.members@;
        let ghost m = self@;
        w.member_opt(out, "\"mutable-content\":", crate::json::opt_u8_string(self.mutable_content));
        let level = match self.interruption_level {
            Some(l) => Some(level_string(l)),
            None => None,
        };
        assert(opt_string(level) == opt_level_text(m.interruption_level));
        w.member_opt(out, "\"interruption-level\":", level);
        w.member_opt(out, "\"dismissal-date\":", crate::json::opt_u64_string(self.dismissal_date));
        let url_args = match self.url_args {
            Some(a) => Some(crate::json::string_array(a)),
            None => None,
        };
        assert(opt_string(url_args) == opt_string_array(m.url_args));
        w.member_opt(out, "\"url-args\":", url_args);
        w.member_opt(out, "\"timestamp\":", crate::json::opt_u64_string(self.timestamp));
        assert(w.members@ == with_delivery_members(before, m));
    }

    /// Appends the live-activity members.
    fn write_live_members(&self, out: &mut String, w: &mut ObjectWriter)
        requires
            old(w).inv(old(out)@),
        ensures
            final(w).inv(final(out)@),
            final(w).start == old(w).start,
            final(w).members@ == with_live_members(old(w).members@, self@),
    {
        let ghost before = w.members@;
        let ghost m = self@;
        w.member_opt(out, "\"event\":", crate::json::opt_quoted_string(self.event));
        w.member_opt(out, "\"content-state\":", crate::json::opt_value_string(&self.content_state));
        w.member_opt(
            out,
            "\"attributes-type\":",
            crate::json::opt_quoted_string(self.attributes_type),
        );
        w.member_opt(out, "\"attributes\":", crate::json::opt_value_string(&self.attributes));
        w.member_opt(
            out,
            "\"input-push-channel\":",
            crate::json::opt_quoted_string(self.input_push_channel),
        );
        w.member_opt(out, "\"input-push-token\":", crate::json::opt_u8_string(self.input_push_token));
        assert(w.members@ == with_live_members(before, m));
    }

    /// Returns the JSON text of the `aps` object.
    pub fn json_string(&self) -> (r: String)
        ensures
            r@ == aps_text(self@),
    {
        let mut out = String::new();
        let mut w = ObjectWriter::begin(&mut out);
        let ghost m = self@;
        self.write_content_members(&mut out, &mut w);
        self.write_delivery_members(&mut out, &mut w);
        self.write_live_members(&mut out, &mut w);
        assert(w.members@ =~= aps_members(m));
        w.finish(&mut out);
        assert(out@ =~= aps_text(m));
        out
    }
}


/// The data and options for a push notification.
#[derive(Debug, Clone)]
pub struct Payload<'a> {
    /// Send options
    pub options: NotificationOptions<'a>,
    /// The token for the receiving device
    pub device_token: &'a str,
    /// The pre-defined notification payload
    pub aps: APS<'a>,
    /// Application specific payload
    pub data: CustomData<'a>,
}

/// The model of a [`Payload`]: what its JSON text is made from, and the
/// device it is for.
pub struct PayloadModel {
    pub device_token: Seq<char>,
    pub aps: ApsModel,
    pub data: Seq<(Seq<char>, JsonModel)>,
}

impl<'a> View for Payload<'a> {
    type V = PayloadModel;

    open spec fn view(&self) -> PayloadModel {
        PayloadModel { device_token: self.device_token@, aps: self.aps@, data: self.data@ }
    }
}

/// The members of the payload object: `aps` first, then the custom data.
pub open spec fn payload_members(p: PayloadModel) -> Seq<Seq<char>> {
    seq!["\"aps\":"@ + aps_text(p.aps)] + custom_members(p.data)
}

/// The JSON text of a payload.
pub open spec fn payload_text(p: PayloadModel) -> Seq<char> {
    seq!['{'] + join(payload_members(p)) + seq!['}']
}

/// Object that can be serialized to create an APNS request.
pub trait PayloadLike {
    /// Combine the APS payload and the custom data to a final payload JSON.
    fn to_json_string(&self) -> Result<String, Error>;

    /// Returns token for the device
    fn get_device_token(&self) -> &str;

    /// Gets [`NotificationOptions`] for this Payload.
    fn get_options(&self) -> &NotificationOptions<'_>;
}

impl<'a> Payload<'a> {
    /// Returns the JSON text of this payload.
    pub fn json_string(&self) -> (r: String)
        ensures
            r@ == payload_text(self@),
    {
        let ghost m = self@;
        let mut out = String::new();
        let mut w = ObjectWriter::begin(&mut out);
        let aps = self.aps.json_string();
        w.member(&mut out, "\"aps\":", aps.as_str());
        self.data.write_members(&mut out, &mut w);
        assert(w.members@ =~= payload_members(m));
        w.finish(&mut out);
        assert(out@ =~= payload_text(m));
        out
    }
}

impl<'a> Payload<'a> {
    /// Client-specific custom data to be added in the payload. The
    /// `root_key` defines the JSON key in the root of the request data, and
    /// `data` the value under it. A value already under `root_key` is
    /// replaced; the keys stay in the order of their bytes.
    pub fn add_custom_data(&mut self, root_key: &'a str, data: JsonValue) -> (r: Result<
        &mut Self,
        Error,
    >)
        ensures
            r is Ok,
            r matches Ok(p) ==> {
                &&& keys_sorted(p.data@)
                &&& entries_map(p.data@) == entries_map(old(self).data@).insert(root_key@, data@)
                &&& p.aps == old(self).aps
                &&& p.device_token == old(self).device_token
                &&& p.options == old(self).options
                &&& *final(p) == *final(self)
            },
    {
        self.data.insert(root_key, data);
        Ok(self)
    }
}

impl<'a> PayloadLike for Payload<'a> {
    fn to_json_string(&self) -> (r: Result<String, Error>)
        ensures
            r matches Ok(s) && s@ == payload_text(self@),
    {
        Ok(self.json_string())
    }

    fn get_device_token(&self) -> (r: &str)
        ensures
            r == self.device_token,
    {
        self.device_token
    }

    fn get_options(&self) -> (r: &NotificationOptions<'_>)
        ensures
            *r == self.options,
    {
        &self.options
    }
}


/// Adding custom data under two different keys gives the same data, and so
/// the same JSON text, whichever of the two is added first.
pub proof fn lemma_custom_data_commutes(
    e1: Seq<(Seq<char>, JsonModel)>,
    e2: Seq<(Seq<char>, JsonModel)>,
    before: Seq<(Seq<char>, JsonModel)>,
    k1: Seq<char>,
    v1: JsonModel,
    k2: Seq<char>,
    v2: JsonModel,
)
    requires
        k1 != k2,
        keys_sorted(e1),
        keys_sorted(e2),
        entries_map(e1) == entries_map(before).insert(k1, v1).insert(k2, v2),
        entries_map(e2) == entries_map(before).insert(k2, v2).insert(k1, v1),
    ensures
        e1 == e2,
        custom_members(e1) == custom_members(e2),
{
    assert(entries_map(e1) =~= entries_map(e2));
    crate::request::custom_data::lemma_sorted_entries_determined(e1, e2);
}


proof fn lemma_with_content_members(pre: Seq<Seq<char>>, m: ApsModel)
    ensures
        m.alert matches Some(v) ==> with_content_members(pre, m).contains("\"alert\":"@ + alert_text(v)),
        m.badge matches Some(v) ==> with_content_members(pre, m).contains("\"badge\":"@ + crate::json::decimal_text(v as nat)),
        m.sound matches Some(v) ==> with_content_members(pre, m).contains("\"sound\":"@ + sound_text(v)),
        m.thread_id matches Some(v) ==> with_content_members(pre, m).contains("\"thread-id\":"@ + quoted(v)),
        m.content_available matches Some(v) ==> with_content_members(pre, m).contains("\"content-available\":"@ + crate::json::decimal_text(v as nat)),
        m.category matches Some(v) ==> with_content_members(pre, m).contains("\"category\":"@ + quoted(v)),
        forall|x: Seq<char>| pre.contains(x) ==> #[trigger] with_content_members(pre, m).contains(x),
        with_content_members(pre, m).len() == pre.len() + crate::json::count_present(m.alert) + crate::json::count_present(m.badge) + crate::json::count_present(m.sound) + crate::json::count_present(m.thread_id) + crate::json::count_present(m.content_available) + crate::json::count_present(m.category),
{
    broadcast use vstd::seq_lib::lemma_seq_concat_contains_all_elements;

    crate::json::lemma_opt_member_present("\"alert\":"@, opt_alert_text(m.alert));
    crate::json::lemma_opt_member_present("\"badge\":"@, opt_u32_text(m.badge));
    crate::json::lemma_opt_member_present("\"sound\":"@, opt_sound_text(m.sound));
    crate::json::lemma_opt_member_present("\"thread-id\":"@, opt_quoted(m.thread_id));
    crate::json::lemma_opt_member_present("\"content-available\":"@, opt_u8_text(m.content_available));
    crate::json::lemma_opt_member_present("\"category\":"@, opt_quoted(m.category));
}

proof fn lemma_with_delivery_members(pre: Seq<Seq<char>>, m: ApsModel)
    ensures
        m.mutable_content matches Some(v) ==> with_delivery_members(pre, m).contains("\"mutable-content\":"@ + crate::json::decimal_text(v as nat)),
        m.interruption_level matches Some(v) ==> with_delivery_members(pre, m).contains("\"interruption-level\":"@ + level_text(v)),
        m.dismissal_date matches Some(v) ==> with_delivery_members(pre, m).contains("\"dismissal-date\":"@ + crate::json::decimal_text(v as nat)),
        m.url_args matches Some(v) ==> with_delivery_members(pre, m).contains("\"url-args\":"@ + crate::json::string_array_text(v)),
        m.timestamp matches Some(v) ==> with_delivery_members(pre, m).contains("\"timestamp\":"@ + crate::json::decimal_text(v as nat)),
        forall|x: Seq<char>| pre.contains(x) ==> #[trigger] with_delivery_members(pre, m).contains(x),
        with_delivery_members(pre, m).len() == pre.len() + crate::json::count_present(m.mutable_content) + crate::json::count_present(m.interruption_level) + crate::json::count_present(m.dismissal_date) + crate::json::count_present(m.url_args) + crate::json::count_present(m.timestamp),
{
    broadcast use vstd::seq_lib::lemma_seq_concat_contains_all_elements;

    crate::json::lemma_opt_member_present("\"mutable-content\":"@, opt_u8_text(m.mutable_content));
    crate::json::lemma_opt_member_present("\"interruption-level\":"@, opt_level_text(m.interruption_level));
    crate::json::lemma_opt_member_present("\"dismissal-date\":"@, opt_u64_text(m.dismissal_date));
    crate::json::lemma_opt_member_present("\"url-args\":"@, opt_string_array(m.url_args));
    crate::json::lemma_opt_member_present("\"timestamp\":"@, opt_u64_text(m.timestamp));
}

proof fn lemma_with_live_members(pre: Seq<Seq<char>>, m: ApsModel)
    ensures
        m.event matches Some(v) ==> with_live_members(pre, m).contains("\"event\":"@ + quoted(v)),
        m.content_state matches Some(v) ==> with_live_members(pre, m).contains("\"content-state\":"@ + crate::json::value_text(v)),
        m.attributes_type matches Some(v) ==> with_live_members(pre, m).contains("\"attributes-type\":"@ + quoted(v)),
        m.attributes matches Some(v) ==> with_live_members(pre, m).contains("\"attributes\":"@ + crate::json::value_text(v)),
        m.input_push_channel matches Some(v) ==> with_live_members(pre, m).contains("\"input-push-channel\":"@ + quoted(v)),
        m.input_push_token matches Some(v) ==> with_live_members(pre, m).contains("\"input-push-token\":"@ + crate::json::decimal_text(v as nat)),
        forall|x: Seq<char>| pre.contains(x) ==> #[trigger] with_live_members(pre, m).contains(x),
        with_live_members(pre, m).len() == pre.len() + crate::json::count_present(m.event) + crate::json::count_present(m.content_state) + crate::json::count_present(m.attributes_type) + crate::json::count_present(m.attributes) + crate::json::count_present(m.input_push_channel) + crate::json::count_present(m.input_push_token),
{
    broadcast use vstd::seq_lib::lemma_seq_concat_contains_all_elements;

    crate::json::lemma_opt_member_present("\"event\":"@, opt_quoted(m.event));
    crate::json::lemma_opt_member_present("\"content-state\":"@, opt_value_text(m.content_state));
    crate::json::lemma_opt_member_present("\"attributes-type\":"@, opt_quoted(m.attributes_type));
    crate::json::lemma_opt_member_present("\"attributes\":"@, opt_value_text(m.attributes));
    crate::json::lemma_opt_member_present("\"input-push-channel\":"@, opt_quoted(m.input_push_channel));
    crate::json::lemma_opt_member_present("\"input-push-token\":"@, opt_u8_text(m.input_push_token));
}

/// Every field of the `aps` dictionary that is present appears in its JSON
/// object under its own key with its own text (a badge of zero included),
/// whatever else is present; absent fields are left out, and there are no
/// other members.
pub proof fn lemma_aps_members_present(m: ApsModel)
    ensures
        m.alert matches Some(v) ==> aps_members(m).contains("\"alert\":"@ + alert_text(v)),
        m.badge matches Some(v) ==> aps_members(m).contains("\"badge\":"@ + crate::json::decimal_text(v as nat)),
        m.sound matches Some(v) ==> aps_members(m).contains("\"sound\":"@ + sound_text(v)),
        m.thread_id matches Some(v) ==> aps_members(m).contains("\"thread-id\":"@ + quoted(v)),
        m.content_available matches Some(v) ==> aps_members(m).contains("\"content-available\":"@ + crate::json::decimal_text(v as nat)),
        m.category matches Some(v) ==> aps_members(m).contains("\"category\":"@ + quoted(v)),
        m.mutable_content matches Some(v) ==> aps_members(m).contains("\"mutable-content\":"@ + crate::json::decimal_text(v as nat)),
        m.interruption_level matches Some(v) ==> aps_members(m).contains("\"interruption-level\":"@ + level_text(v)),
        m.dismissal_date matches Some(v) ==> aps_members(m).contains("\"dismissal-date\":"@ + crate::json::decimal_text(v as nat)),
        m.url_args matches Some(v) ==> aps_members(m).contains("\"url-args\":"@ + crate::json::string_array_text(v)),
        m.timestamp matches Some(v) ==> aps_members(m).contains("\"timestamp\":"@ + crate::json::decimal_text(v as nat)),
        m.event matches Some(v) ==> aps_members(m).contains("\"event\":"@ + quoted(v)),
        m.content_state matches Some(v) ==> aps_members(m).contains("\"content-state\":"@ + crate::json::value_text(v)),
        m.attributes_type matches Some(v) ==> aps_members(m).contains("\"attributes-type\":"@ + quoted(v)),
        m.attributes matches Some(v) ==> aps_members(m).contains("\"attributes\":"@ + crate::json::value_text(v)),
        m.input_push_channel matches Some(v) ==> aps_members(m).contains("\"input-push-channel\":"@ + quoted(v)),
        m.input_push_token matches Some(v) ==> aps_members(m).contains("\"input-push-token\":"@ + crate::json::decimal_text(v as nat)),
        aps_members(m).len() == crate::json::count_present(m.alert) + crate::json::count_present(m.badge) + crate::json::count_present(m.sound) + crate::json::count_present(m.thread_id) + crate::json::count_present(m.content_available) + crate::json::count_present(m.category) + crate::json::count_present(m.mutable_content) + crate::json::count_present(m.interruption_level) + crate::json::count_present(m.dismissal_date) + crate::json::count_present(m.url_args) + crate::json::count_present(m.timestamp) + crate::json::count_present(m.event) + crate::json::count_present(m.content_state) + crate::json::count_present(m.attributes_type) + crate::json::count_present(m.attributes) + crate::json::count_present(m.input_push_channel) + crate::json::count_present(m.input_push_token),
{
    broadcast use vstd::seq_lib::lemma_seq_concat_contains_all_elements;

    let c = with_content_members(Seq::empty(), m);
    let d = with_delivery_members(c, m);
    lemma_with_content_members(Seq::empty(), m);
    lemma_with_delivery_members(c, m);
    lemma_with_live_members(d, m);
}

/// The JSON object of a payload has the `aps` object first, then one member
/// per entry of custom data, in the order of the entries, each the entry's
/// quoted key and the text of its value.
pub proof fn lemma_payload_members(p: PayloadModel)
    ensures
        payload_members(p).len() == 1 + p.data.len(),
        payload_members(p)[0] == "\"aps\":"@ + aps_text(p.aps),
        forall|i: int|
            0 <= i < p.data.len() ==> #[trigger] payload_members(p)[i + 1]
                == crate::json::member_text(p.data[i].0, crate::json::value_text(p.data[i].1)),
{
}

} // verus!
