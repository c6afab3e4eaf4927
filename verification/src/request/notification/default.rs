use crate::json::{
    count_present, lemma_opt_member_present,
    join, opt_json, opt_member, opt_number, opt_number_text, opt_quoted, opt_str, opt_string,
    opt_string_array, strs_model, JsonNumber, JsonValue, NumberModel, JsonModel, ObjectWriter,
};
use crate::request::custom_data::CustomData;
use crate::request::notification::{NotificationBuilder, NotificationOptions};
use crate::request::payload::{
    AlertContent, APSAlert, APSSound, ApsModel, InterruptionLevel, Payload, SoundContent, APS,
};
use vstd::prelude::*;

verus! {

/// The sound of a notification, which can be a critical alert.
#[derive(Debug, Clone)]
pub struct DefaultSound<'a> {
    critical: bool,
    name: Option<&'a str>,
    volume: Option<JsonNumber>,
}

/// The model of a [`DefaultSound`].
pub struct SoundModel {
    pub critical: bool,
    pub name: Option<Seq<char>>,
    pub volume: Option<NumberModel>,
}

impl<'a> View for DefaultSound<'a> {
    type V = SoundModel;

    closed spec fn view(&self) -> SoundModel {
        SoundModel {
            critical: self.critical,
            name: opt_str(self.name),
            volume: opt_number(self.volume),
        }
    }
}

/// The members of the JSON object of a sound: `critical` only when set, as
/// the number one, then the name and the volume when present.
pub open spec fn default_sound_members(m: SoundModel) -> Seq<Seq<char>> {
    (if m.critical {
        seq!["\"critical\":1"@]
    } else {
        Seq::empty()
    }) + opt_member("\"name\":"@, opt_quoted(m.name)) + opt_member(
        "\"volume\":"@,
        opt_number_text(m.volume),
    )
}

impl<'a> Default for DefaultSound<'a> {
    fn default() -> (r: Self)
        ensures
            r@ == (SoundModel { critical: false, name: None, volume: None }),
    {
        DefaultSound { critical: false, name: None, volume: None }
    }
}

impl<'a> DefaultSound<'a> {
    /// Appends the JSON object of this sound.
    pub(crate) fn write_json(&self, out: &mut String)
        ensures
            final(out)@ == old(out)@ + seq!['{'] + join(default_sound_members(self@)) + seq!['}'],
    {
        let ghost m = self@;
        let mut w = ObjectWriter::begin(out);
        if self.critical {
            w.member(out, "\"critical\":", "1");
            proof {
                reveal_strlit("\"critical\":");
                reveal_strlit("1");
                reveal_strlit("\"critical\":1");
                assert("\"critical\":"@ + "1"@ =~= "\"critical\":1"@);
            }
        }
        assert(w.members@ =~= if m.critical {
            seq!["\"critical\":1"@]
        } else {
            Seq::<Seq<char>>::empty()
        });
        w.member_opt(out, "\"name\":", crate::json::opt_quoted_string(self.name));
        let volume = match &self.volume {
            Some(v) => Some(crate::json::number_string(v)),
            None => None,
        };
        assert(opt_string(volume) == opt_number_text(m.volume));
        w.member_opt(out, "\"volume\":", volume);
        assert(w.members@ =~= default_sound_members(m));
        w.finish(out);
    }
}

/// The alert of a notification, with the localisation keys and arguments.
#[derive(Debug, Clone)]
pub struct DefaultAlert<'a> {
    title: Option<&'a str>,
    subtitle: Option<&'a str>,
    body: Option<&'a str>,
    title_loc_key: Option<&'a str>,
    title_loc_args: Option<Vec<&'a str>>,
    action_loc_key: Option<&'a str>,
    loc_key: Option<&'a str>,
    loc_args: Option<Vec<&'a str>>,
    launch_image: Option<&'a str>,
}

/// The model of a [`DefaultAlert`].
pub struct AlertModel {
    pub title: Option<Seq<char>>,
    pub subtitle: Option<Seq<char>>,
    pub body: Option<Seq<char>>,
    pub title_loc_key: Option<Seq<char>>,
    pub title_loc_args: Option<Seq<Seq<char>>>,
    pub action_loc_key: Option<Seq<char>>,
    pub loc_key: Option<Seq<char>>,
    pub loc_args: Option<Seq<Seq<char>>>,
    pub launch_image: Option<Seq<char>>,
}

/// The model of an optional list of strings.
pub open spec fn opt_str_vec(o: Option<Vec<&str>>) -> Option<Seq<Seq<char>>> {
    match o {
        Some(v) => Some(strs_model(v@)),
        None => None,
    }
}

/// An alert with nothing set.
pub open spec fn empty_alert() -> AlertModel {
    AlertModel {
        title: None,
        subtitle: None,
        body: None,
        title_loc_key: None,
        title_loc_args: None,
        action_loc_key: None,
        loc_key: None,
        loc_args: None,
        launch_image: None,
    }
}

impl<'a> View for DefaultAlert<'a> {
    type V = AlertModel;

    closed spec fn view(&self) -> AlertModel {
        AlertModel {
            title: opt_str(self.title),
            subtitle: opt_str(self.subtitle),
            body: opt_str(self.body),
            title_loc_key: opt_str(self.title_loc_key),
            title_loc_args: opt_str_vec(self.title_loc_args),
            action_loc_key: opt_str(self.action_loc_key),
            loc_key: opt_str(self.loc_key),
            loc_args: opt_str_vec(self.loc_args),
            launch_image: opt_str(self.launch_image),
        }
    }
}

/// The members of the JSON object of an alert, in order; absent fields are
/// left out.
pub open spec fn default_alert_members(m: AlertModel) -> Seq<Seq<char>> {
    opt_member("\"title\":"@, opt_quoted(m.title))
        + opt_member("\"subtitle\":"@, opt_quoted(m.subtitle))
        + opt_member("\"body\":"@, opt_quoted(m.body))
        + opt_member("\"title-loc-key\":"@, opt_quoted(m.title_loc_key))
        + opt_member("\"title-loc-args\":"@, opt_string_array(m.title_loc_args))
        + opt_member("\"action-loc-key\":"@, opt_quoted(m.action_loc_key))
        + opt_member("\"loc-key\":"@, opt_quoted(m.loc_key))
        + opt_member("\"loc-args\":"@, opt_string_array(m.loc_args))
        + opt_member("\"launch-image\":"@, opt_quoted(m.launch_image))
}

fn opt_args_string(o: &Option<Vec<&str>>) -> (r: Option<String>)
    ensures
        opt_string(r) == opt_string_array(opt_str_vec(*o)),
{
    match o {
        Some(v) => Some(crate::json::string_array(v.as_slice())),
        None => None,
    }
}

impl<'a> Default for DefaultAlert<'a> {
    fn default() -> (r: Self)
        ensures
            r@ == empty_alert(),
    {
        DefaultAlert {
            title: None,
            subtitle: None,
            body: None,
            title_loc_key: None,
            title_loc_args: None,
            action_loc_key: None,
            loc_key: None,
            loc_args: None,
            launch_image: None,
        }
    }
}

impl<'a> DefaultAlert<'a> {
    /// Appends the JSON object of this alert.
    pub(crate) fn write_json(&self, out: &mut String)
        ensures
            final(out)@ == old(out)@ + seq!['{'] + join(default_alert_members(self@)) + seq!['}'],
    {
        let ghost m = self@;
        let mut w = ObjectWriter::begin(out);
        w.member_opt(out, "\"title\":", crate::json::opt_quoted_string(self.title));
        w.member_opt(out, "\"subtitle\":", crate::json::opt_quoted_string(self.subtitle));
        w.member_opt(out, "\"body\":", crate::json::opt_quoted_string(self.body));
        w.member_opt(out, "\"title-loc-key\":", crate::json::opt_quoted_string(self.title_loc_key));
        w.member_opt(out, "\"title-loc-args\":", opt_args_string(&self.title_loc_args));
        w.member_opt(
            out,
            "\"action-loc-key\":",
            crate::json::opt_quoted_string(self.action_loc_key),
        );
        w.member_opt(out, "\"loc-key\":", crate::json::opt_quoted_string(self.loc_key));
        w.member_opt(out, "\"loc-args\":", opt_args_string(&self.loc_args));
        w.member_opt(out, "\"launch-image\":", crate::json::opt_quoted_string(self.launch_image));
        assert(w.members@ =~= default_alert_members(m));
        w.finish(out);
    }
}


/// A builder to create an APNs payload.
#[derive(Debug, Clone)]
pub struct DefaultNotificationBuilder<'a> {
    alert: DefaultAlert<'a>,
    badge: Option<u32>,
    sound: DefaultSound<'a>,
    thread_id: Option<&'a str>,
    category: Option<&'a str>,
    mutable_content: u8,
    content_available: Option<u8>,
    interruption_level: Option<InterruptionLevel>,
    has_edited_alert: bool,
    timestamp: Option<u64>,
    event: Option<&'a str>,
    content_state: Option<JsonValue>,
    attributes_type: Option<&'a str>,
    attributes: Option<JsonValue>,
    input_push_channel: Option<&'a str>,
    input_push_token: Option<u8>,
    dismissal_date: Option<u64>,
}

/// The model of a [`DefaultNotificationBuilder`].
pub struct BuilderModel {
    pub alert: AlertModel,
    pub badge: Option<u32>,
    pub sound: SoundModel,
    pub thread_id: Option<Seq<char>>,
    pub category: Option<Seq<char>>,
    pub mutable_content: u8,
    pub content_available: Option<u8>,
    pub interruption_level: Option<InterruptionLevel>,
    /// Whether a field of the alert other than its body was set.
    pub has_edited_alert: bool,
    pub timestamp: Option<u64>,
    pub event: Option<Seq<char>>,
    pub content_state: Option<JsonModel>,
    pub attributes_type: Option<Seq<char>>,
    pub attributes: Option<JsonModel>,
    pub input_push_channel: Option<Seq<char>>,
    pub input_push_token: Option<u8>,
    pub dismissal_date: Option<u64>,
}

impl<'a> View for DefaultNotificationBuilder<'a> {
    type V = BuilderModel;

    closed spec fn view(&self) -> BuilderModel {
        BuilderModel {
            alert: self.alert@,
            badge: self.badge,
            sound: self.sound@,
            thread_id: opt_str(self.thread_id),
            category: opt_str(self.category),
            mutable_content: self.mutable_content,
            content_available: self.content_available,
            interruption_level: self.interruption_level,
            has_edited_alert: self.has_edited_alert,
            timestamp: self.timestamp,
            event: opt_str(self.event),
            content_state: opt_json(self.content_state),
            attributes_type: opt_str(self.attributes_type),
            attributes: opt_json(self.attributes),
            input_push_channel: opt_str(self.input_push_channel),
            input_push_token: self.input_push_token,
            dismissal_date: self.dismissal_date,
        }
    }
}

/// A builder with nothing set.
pub open spec fn empty_builder() -> BuilderModel {
    BuilderModel {
        alert: empty_alert(),
        badge: None,
        sound: SoundModel { critical: false, name: None, volume: None },
        thread_id: None,
        category: None,
        mutable_content: 0,
        content_available: None,
        interruption_level: None,
        has_edited_alert: false,
        timestamp: None,
        event: None,
        content_state: None,
        attributes_type: None,
        attributes: None,
        input_push_channel: None,
        input_push_token: None,
        dismissal_date: None,
    }
}

/// The `aps` object that a builder produces: a full alert once any field of
/// the alert besides its body was set, else the body alone when there is
/// one; a critical sound as an object, else the sound name when there is
/// one; `mutable-content` always; no URL arguments.
pub open spec fn built_aps(b: BuilderModel) -> ApsModel {
    ApsModel {
        alert: if b.has_edited_alert {
            Some(AlertContent::Default(b.alert))
        } else {
            match b.alert.body {
                Some(body) => Some(AlertContent::Body(body)),
                None => None,
            }
        },
        badge: b.badge,
        sound: if b.sound.critical {
            Some(SoundContent::Critical(b.sound))
        } else {
            match b.sound.name {
                Some(name) => Some(SoundContent::Sound(name)),
                None => None,
            }
        },
        thread_id: b.thread_id,
        content_available: b.content_available,
        category: b.category,
        mutable_content: Some(b.mutable_content),
        interruption_level: b.interruption_level,
        dismissal_date: b.dismissal_date,
        url_args: None,
        timestamp: b.timestamp,
        event: b.event,
        content_state: b.content_state,
        attributes_type: b.attributes_type,
        attributes: b.attributes,
        input_push_channel: b.input_push_channel,
        input_push_token: b.input_push_token,
    }
}

fn copy_strs<'a>(args: &[&'a str]) -> (r: Vec<&'a str>)
    ensures
        r@ == args@,
{
    let mut r: Vec<&'a str> = Vec::new();
    let mut i: usize = 0;
    while i < args.len()
        invariant
            i <= args@.len(),
            r@ == args@.take(i as int),
        decreases args@.len() - i,
    {
        r.push(args[i]);
        i = i + 1;
        assert(r@ =~= args@.take(i as int));
    }
    assert(args@.take(i as int) =~= args@);
    r
}

impl<'a> Default for DefaultNotificationBuilder<'a> {
    fn default() -> (r: Self)
        ensures
            r@ == empty_builder(),
    {
        DefaultNotificationBuilder {
            alert: DefaultAlert::default(),
            badge: None,
            sound: DefaultSound::default(),
            thread_id: None,
            category: None,
            mutable_content: 0,
            content_available: None,
            interruption_level: None,
            has_edited_alert: false,
            timestamp: None,
            event: None,
            content_state: None,
            attributes_type: None,
            attributes: None,
            input_push_channel: None,
            input_push_token: None,
            dismissal_date: None,
        }
    }
}

impl<'a> DefaultNotificationBuilder<'a> {
    /// Creates a new builder with the minimum amount of content.
    pub fn new() -> (r: DefaultNotificationBuilder<'a>)
        ensures
            r@ == empty_builder(),
    {
        Self::default()
    }

    /// Set critical alert value for this notification
    /// Volume can only be set when the notification is marked as critcial
    /// Note: You'll need the critical alerts entitlement to use `true`!
    pub fn critical(self, critical: bool, volume: Option<JsonNumber>) -> (r: Self)
        ensures
            r@ == (BuilderModel {
                sound: SoundModel {
                    critical: critical,
                    volume: if critical {
                        opt_number(volume)
                    } else {
                        None
                    },
                    ..self@.sound
                },
                ..self@
            }),
    {
        let mut b = self;
        if !critical {
            b.sound.volume = None;
            b.sound.critical = false;
        } else {
            b.sound.volume = volume;
            b.sound.critical = true;
        }
        b
    }

    /// Deprecated: the builder was made more idiomatic; use `critical` instead.
    pub fn set_critical(self, critical: bool, volume: Option<JsonNumber>) -> (r: Self)
        ensures
            r@ == (BuilderModel {
                sound: SoundModel {
                    critical: critical,
                    volume: if critical {
                        opt_number(volume)
                    } else {
                        None
                    },
                    ..self@.sound
                },
                ..self@
            }),
    {
        self.critical(critical, volume)
    }
    /// Set the title of the notification.
    /// Apple Watch displays this string in the short look notification interface.
    /// Specify a string that's quickly understood by the user.
    pub fn title(self, title: &'a str) -> (r: Self)
        ensures
            r@ == (BuilderModel { alert: AlertModel { title: Some(title@), ..self@.alert }, has_edited_alert: true, ..self@ }),
    {
        let mut b = self;
        b.alert.title = Some(title);
        b.has_edited_alert = true;
        b
    }

    /// Deprecated: the builder was made more idiomatic; use `title` instead.
    pub fn set_title(self, title: &'a str) -> (r: Self)
        ensures
            r@ == (BuilderModel { alert: AlertModel { title: Some(title@), ..self@.alert }, has_edited_alert: true, ..self@ }),
    {
        self.title(title)
    }

    /// Used to set the subtitle which should provide additional information that explains the purpose of the notification.
    pub fn subtitle(self, subtitle: &'a str) -> (r: Self)
        ensures
            r@ == (BuilderModel { alert: AlertModel { subtitle: Some(subtitle@), ..self@.alert }, has_edited_alert: true, ..self@ }),
    {
        let mut b = self;
        b.alert.subtitle = Some(subtitle);
        b.has_edited_alert = true;
        b
    }

    /// Deprecated: the builder was made more idiomatic; use `subtitle` instead.
    pub fn set_subtitle(self, subtitle: &'a str) -> (r: Self)
        ensures
            r@ == (BuilderModel { alert: AlertModel { subtitle: Some(subtitle@), ..self@.alert }, has_edited_alert: true, ..self@ }),
    {
        self.subtitle(subtitle)
    }

    /// Sets the content of the alert message.
    pub fn body(self, body: &'a str) -> (r: Self)
        ensures
            r@ == (BuilderModel { alert: AlertModel { body: Some(body@), ..self@.alert }, ..self@ }),
    {
        let mut b = self;
        b.alert.body = Some(body);
        b
    }

    /// Deprecated: the builder was made more idiomatic; use `body` instead.
    pub fn set_body(self, body: &'a str) -> (r: Self)
        ensures
            r@ == (BuilderModel { alert: AlertModel { body: Some(body@), ..self@.alert }, ..self@ }),
    {
        self.body(body)
    }

    /// A number to show on a badge on top of the app icon.
    pub fn badge(self, badge: u32) -> (r: Self)
        ensures
            r@ == (BuilderModel { badge: Some(badge), ..self@ }),
    {
        let mut b = self;
        b.badge = Some(badge);
        b
    }

    /// Deprecated: the builder was made more idiomatic; use `badge` instead.
    pub fn set_badge(self, badge: u32) -> (r: Self)
        ensures
            r@ == (BuilderModel { badge: Some(badge), ..self@ }),
    {
        self.badge(badge)
    }

    /// File name of the custom sound to play when receiving the notification.
    pub fn sound(self, sound: &'a str) -> (r: Self)
        ensures
            r@ == (BuilderModel { sound: SoundModel { name: Some(sound@), ..self@.sound }, ..self@ }),
    {
        let mut b = self;
        b.sound.name = Some(sound);
        b
    }

    /// Deprecated: the builder was made more idiomatic; use `sound` instead.
    pub fn set_sound(self, sound: &'a str) -> (r: Self)
        ensures
            r@ == (BuilderModel { sound: SoundModel { name: Some(sound@), ..self@.sound }, ..self@ }),
    {
        self.sound(sound)
    }

    /// An application-specific name that allows notifications to be grouped together.
    pub fn thread_id(self, thread_id: &'a str) -> (r: Self)
        ensures
            r@ == (BuilderModel { thread_id: Some(thread_id@), ..self@ }),
    {
        let mut b = self;
        b.thread_id = Some(thread_id);
        b
    }

    /// When a notification includes the category key, the system displays the
    /// actions for that category as buttons in the banner or alert interface.
    pub fn category(self, category: &'a str) -> (r: Self)
        ensures
            r@ == (BuilderModel { category: Some(category@), ..self@ }),
    {
        let mut b = self;
        b.category = Some(category);
        b
    }

    /// Deprecated: the builder was made more idiomatic; use `category` instead.
    pub fn set_category(self, category: &'a str) -> (r: Self)
        ensures
            r@ == (BuilderModel { category: Some(category@), ..self@ }),
    {
        self.category(category)
    }

    /// The localization key for the notification title.
    pub fn title_loc_key(self, key: &'a str) -> (r: Self)
        ensures
            r@ == (BuilderModel { alert: AlertModel { title_loc_key: Some(key@), ..self@.alert }, has_edited_alert: true, ..self@ }),
    {
        let mut b = self;
        b.alert.title_loc_key = Some(key);
        b.has_edited_alert = true;
        b
    }

    /// Deprecated: the builder was made more idiomatic; use `title_loc_key` instead.
    pub fn set_title_loc_key(self, key: &'a str) -> (r: Self)
        ensures
            r@ == (BuilderModel { alert: AlertModel { title_loc_key: Some(key@), ..self@.alert }, has_edited_alert: true, ..self@ }),
    {
        self.title_loc_key(key)
    }

    /// Arguments for the title localization.
    pub fn title_loc_args(self, args: &'a [&'a str]) -> (r: Self)
        ensures
            r@ == (BuilderModel { alert: AlertModel { title_loc_args: Some(strs_model(args@)), ..self@.alert }, has_edited_alert: true, ..self@ }),
    {
        let mut b = self;
        let converted = copy_strs(args);
        b.alert.title_loc_args = Some(converted);
        b.has_edited_alert = true;
        b
    }

    /// Deprecated: the builder was made more idiomatic; use `title_loc_args` instead.
    pub fn set_title_loc_args(self, args: &'a [&'a str]) -> (r: Self)
        ensures
            r@ == (BuilderModel { alert: AlertModel { title_loc_args: Some(strs_model(args@)), ..self@.alert }, has_edited_alert: true, ..self@ }),
    {
        self.title_loc_args(args)
    }

    /// The localization key for the action.
    pub fn action_loc_key(self, key: &'a str) -> (r: Self)
        ensures
            r@ == (BuilderModel { alert: AlertModel { action_loc_key: Some(key@), ..self@.alert }, has_edited_alert: true, ..self@ }),
    {
        let mut b = self;
        b.alert.action_loc_key = Some(key);
        b.has_edited_alert = true;
        b
    }

    /// Deprecated: the builder was made more idiomatic; use `action_loc_key` instead.
    pub fn set_action_loc_key(self, key: &'a str) -> (r: Self)
        ensures
            r@ == (BuilderModel { alert: AlertModel { action_loc_key: Some(key@), ..self@.alert }, has_edited_alert: true, ..self@ }),
    {
        self.action_loc_key(key)
    }

    /// The localization key for the push message body.
    pub fn loc_key(self, key: &'a str) -> (r: Self)
        ensures
            r@ == (BuilderModel { alert: AlertModel { loc_key: Some(key@), ..self@.alert }, has_edited_alert: true, ..self@ }),
    {
        let mut b = self;
        b.alert.loc_key = Some(key);
        b.has_edited_alert = true;
        b
    }

    /// Deprecated: the builder was made more idiomatic; use `loc_key` instead.
    pub fn set_loc_key(self, key: &'a str) -> (r: Self)
        ensures
            r@ == (BuilderModel { alert: AlertModel { loc_key: Some(key@), ..self@.alert }, has_edited_alert: true, ..self@ }),
    {
        self.loc_key(key)
    }

    /// Arguments for the content localization.
    pub fn loc_args(self, args: &'a [&'a str]) -> (r: Self)
        ensures
            r@ == (BuilderModel { alert: AlertModel { loc_args: Some(strs_model(args@)), ..self@.alert }, has_edited_alert: true, ..self@ }),
    {
        let mut b = self;
        let converted = copy_strs(args);
        b.alert.loc_args = Some(converted);
        b.has_edited_alert = true;
        b
    }

    /// Deprecated: the builder was made more idiomatic; use `loc_args` instead.
    pub fn set_loc_args(self, args: &'a [&'a str]) -> (r: Self)
        ensures
            r@ == (BuilderModel { alert: AlertModel { loc_args: Some(strs_model(args@)), ..self@.alert }, has_edited_alert: true, ..self@ }),
    {
        self.loc_args(args)
    }

    /// Image to display in the rich notification.
    pub fn launch_image(self, image: &'a str) -> (r: Self)
        ensures
            r@ == (BuilderModel { alert: AlertModel { launch_image: Some(image@), ..self@.alert }, has_edited_alert: true, ..self@ }),
    {
        let mut b = self;
        b.alert.launch_image = Some(image);
        b.has_edited_alert = true;
        b
    }

    /// Deprecated: the builder was made more idiomatic; use `launch_image` instead.
    pub fn set_launch_image(self, image: &'a str) -> (r: Self)
        ensures
            r@ == (BuilderModel { alert: AlertModel { launch_image: Some(image@), ..self@.alert }, has_edited_alert: true, ..self@ }),
    {
        self.launch_image(image)
    }

    /// Allow client to modify push content before displaying.
    pub fn mutable_content(self) -> (r: Self)
        ensures
            r@ == (BuilderModel { mutable_content: 1, ..self@ }),
    {
        let mut b = self;
        b.mutable_content = 1;
        b
    }

    /// Deprecated: the builder was made more idiomatic; use `mutable_content` instead.
    pub fn set_mutable_content(self) -> (r: Self)
        ensures
            r@ == (BuilderModel { mutable_content: 1, ..self@ }),
    {
        self.mutable_content()
    }

    /// Used for adding custom data to push notifications
    pub fn content_available(self) -> (r: Self)
        ensures
            r@ == (BuilderModel { content_available: Some(1), ..self@ }),
    {
        let mut b = self;
        b.content_available = Some(1);
        b
    }

    /// Deprecated: the builder was made more idiomatic; use `content_available` instead.
    pub fn set_content_available(self) -> (r: Self)
        ensures
            r@ == (BuilderModel { content_available: Some(1), ..self@ }),
    {
        self.content_available()
    }

    /// Set the interruption level to active. The system presents the notification
    /// immediately, lights up the screen, and can play a sound.
    pub fn active_interruption_level(self) -> (r: Self)
        ensures
            r@ == (BuilderModel { interruption_level: Some(InterruptionLevel::Active), ..self@ }),
    {
        let mut b = self;
        b.interruption_level = Some(InterruptionLevel::Active);
        b
    }

    /// Set the interruption level to critical. The system presents the notification
    /// immediately, lights up the screen, and bypasses the mute switch to play a sound.
    pub fn critical_interruption_level(self) -> (r: Self)
        ensures
            r@ == (BuilderModel { interruption_level: Some(InterruptionLevel::Critical), ..self@ }),
    {
        let mut b = self;
        b.interruption_level = Some(InterruptionLevel::Critical);
        b
    }

    /// Set the interruption level to passive. The system adds the notification to
    /// the notification list without lighting up the screen or playing a sound.
    pub fn passive_interruption_level(self) -> (r: Self)
        ensures
            r@ == (BuilderModel { interruption_level: Some(InterruptionLevel::Passive), ..self@ }),
    {
        let mut b = self;
        b.interruption_level = Some(InterruptionLevel::Passive);
        b
    }

    /// Set the interruption level to time sensitive. The system presents the notification
    /// immediately, lights up the screen, can play a sound, and breaks through system
    /// notification controls.
    pub fn time_sensitive_interruption_level(self) -> (r: Self)
        ensures
            r@ == (BuilderModel { interruption_level: Some(InterruptionLevel::TimeSensitive), ..self@ }),
    {
        let mut b = self;
        b.interruption_level = Some(InterruptionLevel::TimeSensitive);
        b
    }

    /// Set the interruption level directly. Controls how the notification is presented to the user.
    pub fn interruption_level(self, level: InterruptionLevel) -> (r: Self)
        ensures
            r@ == (BuilderModel { interruption_level: Some(level), ..self@ }),
    {
        let mut b = self;
        b.interruption_level = Some(level);
        b
    }

    /// Set the timestamp for a Live Activity update
    pub fn timestamp(self, timestamp: u64) -> (r: Self)
        ensures
            r@ == (BuilderModel { timestamp: Some(timestamp), ..self@ }),
    {
        let mut b = self;
        b.timestamp = Some(timestamp);
        b
    }

    /// Set the event for a Live Activity. Use "start" to begin a Live Activity.
    pub fn event(self, event: &'a str) -> (r: Self)
        ensures
            r@ == (BuilderModel { event: Some(event@), ..self@ }),
    {
        let mut b = self;
        b.event = Some(event);
        b
    }

    /// Set the content state for a Live Activity with dynamic data
    pub fn content_state(self, content_state: &JsonValue) -> (r: Self)
        ensures
            r@ == (BuilderModel { content_state: Some(content_state@), ..self@ }),
    {
        let mut b = self;
        b.content_state = Some(content_state.clone());
        b
    }

    /// Set the attributes type for a Live Activity
    pub fn attributes_type(self, attributes_type: &'a str) -> (r: Self)
        ensures
            r@ == (BuilderModel { attributes_type: Some(attributes_type@), ..self@ }),
    {
        let mut b = self;
        b.attributes_type = Some(attributes_type);
        b
    }

    /// Set the attributes for a Live Activity with data defining the Live Activity
    pub fn attributes(self, attributes: &JsonValue) -> (r: Self)
        ensures
            r@ == (BuilderModel { attributes: Some(attributes@), ..self@ }),
    {
        let mut b = self;
        b.attributes = Some(attributes.clone());
        b
    }

    /// Set the input push channel ID for iOS 18+ channel-based Live Activity updates
    pub fn input_push_channel(self, channel_id: &'a str) -> (r: Self)
        ensures
            r@ == (BuilderModel { input_push_channel: Some(channel_id@), ..self@ }),
    {
        let mut b = self;
        b.input_push_channel = Some(channel_id);
        b
    }

    /// Enable input push token request for iOS 18+ token-based Live Activity updates
    pub fn input_push_token(self) -> (r: Self)
        ensures
            r@ == (BuilderModel { input_push_token: Some(1), ..self@ }),
    {
        let mut b = self;
        b.input_push_token = Some(1);
        b
    }

    /// Set the dismissal date for when the system should automatically remove the notification.
    /// The timestamp should be in Unix epoch time (seconds since 1970-01-01 00:00:00 UTC).
    pub fn dismissal_date(self, dismissal_date: u64) -> (r: Self)
        ensures
            r@ == (BuilderModel { dismissal_date: Some(dismissal_date), ..self@ }),
    {
        let mut b = self;
        b.dismissal_date = Some(dismissal_date);
        b
    }
}

impl<'a> NotificationBuilder<'a> for DefaultNotificationBuilder<'a> {
    fn build(self, device_token: &'a str, options: NotificationOptions<'a>) -> (r: Payload<'a>)
        ensures
            r@ == (crate::request::payload::PayloadModel {
                device_token: device_token@,
                aps: built_aps(self@),
                data: Seq::empty(),
            }),
            r.options == options,
    {
        let ghost m = self@;
        let alert = if self.has_edited_alert {
            Some(APSAlert::Default(self.alert))
        } else {
            match self.alert.body {
                Some(body) => Some(APSAlert::Body(body)),
                None => None,
            }
        };
        let sound = if self.sound.critical {
            Some(APSSound::Critical(self.sound))
        } else {
            match self.sound.name {
                Some(name) => Some(APSSound::Sound(name)),
                None => None,
            }
        };
        let r = Payload {
            aps: APS {
                alert,
                badge: self.badge,
                sound,
                thread_id: self.thread_id,
                content_available: self.content_available,
                category: self.category,
                mutable_content: Some(self.mutable_content),
                interruption_level: self.interruption_level,
                dismissal_date: self.dismissal_date,
                url_args: None,
                timestamp: self.timestamp,
                event: self.event,
                content_state: self.content_state,
                attributes_type: self.attributes_type,
                attributes: self.attributes,
                input_push_channel: self.input_push_channel,
                input_push_token: self.input_push_token,
            },
            device_token,
            options,
            data: CustomData::new(),
        };
        assert(r.aps@ == built_aps(m));
        r
    }
}


/// Every field of an alert that is set appears in its JSON object under its
/// own key, with its own text, whatever else is set; and the object has no
/// other members.
pub proof fn lemma_alert_members_present(m: AlertModel)
    ensures
        m.title matches Some(v) ==> default_alert_members(m).contains(
            "\"title\":"@ + crate::json::quoted(v),
        ),
        m.subtitle matches Some(v) ==> default_alert_members(m).contains(
            "\"subtitle\":"@ + crate::json::quoted(v),
        ),
        m.body matches Some(v) ==> default_alert_members(m).contains(
            "\"body\":"@ + crate::json::quoted(v),
        ),
        m.title_loc_key matches Some(v) ==> default_alert_members(m).contains(
            "\"title-loc-key\":"@ + crate::json::quoted(v),
        ),
        m.title_loc_args matches Some(v) ==> default_alert_members(m).contains(
            "\"title-loc-args\":"@ + crate::json::string_array_text(v),
        ),
        m.action_loc_key matches Some(v) ==> default_alert_members(m).contains(
            "\"action-loc-key\":"@ + crate::json::quoted(v),
        ),
        m.loc_key matches Some(v) ==> default_alert_members(m).contains(
            "\"loc-key\":"@ + crate::json::quoted(v),
        ),
        m.loc_args matches Some(v) ==> default_alert_members(m).contains(
            "\"loc-args\":"@ + crate::json::string_array_text(v),
        ),
        m.launch_image matches Some(v) ==> default_alert_members(m).contains(
            "\"launch-image\":"@ + crate::json::quoted(v),
        ),
        default_alert_members(m).len() == count_present(m.title) + count_present(m.subtitle) + count_present(m.body) + count_present(m.title_loc_key) + count_present(m.title_loc_args) + count_present(m.action_loc_key) + count_present(m.loc_key) + count_present(m.loc_args) + count_present(m.launch_image),
{
    broadcast use vstd::seq_lib::lemma_seq_concat_contains_all_elements;

    lemma_opt_member_present("\"title\":"@, opt_quoted(m.title));
    lemma_opt_member_present("\"subtitle\":"@, opt_quoted(m.subtitle));
    lemma_opt_member_present("\"body\":"@, opt_quoted(m.body));
    lemma_opt_member_present("\"title-loc-key\":"@, opt_quoted(m.title_loc_key));
    lemma_opt_member_present("\"title-loc-args\":"@, opt_string_array(m.title_loc_args));
    lemma_opt_member_present("\"action-loc-key\":"@, opt_quoted(m.action_loc_key));
    lemma_opt_member_present("\"loc-key\":"@, opt_quoted(m.loc_key));
    lemma_opt_member_present("\"loc-args\":"@, opt_string_array(m.loc_args));
    lemma_opt_member_present("\"launch-image\":"@, opt_quoted(m.launch_image));
}

/// A critical sound is written with `"critical":1`, its name and its volume
/// when they are present, and nothing else; a sound that is not critical
/// has no `critical` member.
pub proof fn lemma_sound_members_present(m: SoundModel)
    ensures
        m.critical ==> default_sound_members(m).contains("\"critical\":1"@),
        !m.critical ==> forall|i: int|
            0 <= i < default_sound_members(m).len() ==> default_sound_members(m)[i]
                != "\"critical\":1"@,
        m.name matches Some(n) ==> default_sound_members(m).contains(
            "\"name\":"@ + crate::json::quoted(n),
        ),
        m.volume matches Some(v) ==> default_sound_members(m).contains(
            "\"volume\":"@ + crate::json::number_text(v),
        ),
        default_sound_members(m).len() == (if m.critical {
            1nat
        } else {
            0nat
        }) + count_present(m.name) + count_present(m.volume),
{
    broadcast use vstd::seq_lib::lemma_seq_concat_contains_all_elements;

    let crit: Seq<Seq<char>> = if m.critical {
        seq!["\"critical\":1"@]
    } else {
        Seq::empty()
    };
    if m.critical {
        assert(crit[0] == "\"critical\":1"@);
    }
    lemma_opt_member_present("\"name\":"@, opt_quoted(m.name));
    lemma_opt_member_present("\"volume\":"@, opt_number_text(m.volume));
    if !m.critical {
        reveal_strlit("\"critical\":1");
        reveal_strlit("\"name\":");
        reveal_strlit("\"volume\":");
        let mem = default_sound_members(m);
        assert forall|i: int| 0 <= i < mem.len() implies mem[i] != "\"critical\":1"@ by {
            if mem[i] == "\"critical\":1"@ {
                assert(mem[i][1] == 'c');
                assert(mem[i][1] == 'n' || mem[i][1] == 'v');
            }
        }
    }
}

/// Building a payload carries every field of the builder into the `aps`
/// object unchanged: the badge (zero included), the thread, the category,
/// the flags, the interruption level, the dates and the live-activity
/// fields; `mutable-content` is always present; there are no URL arguments.
/// The alert is the whole alert once a field other than its body was set,
/// else the body alone when there is one; the sound is the whole sound when
/// it is critical, else its name when there is one.
pub proof fn lemma_build_carries_fields(b: BuilderModel)
    ensures
        built_aps(b).badge == b.badge,
        built_aps(b).thread_id == b.thread_id,
        built_aps(b).category == b.category,
        built_aps(b).content_available == b.content_available,
        built_aps(b).mutable_content == Some(b.mutable_content),
        built_aps(b).interruption_level == b.interruption_level,
        built_aps(b).dismissal_date == b.dismissal_date,
        built_aps(b).url_args is None,
        built_aps(b).timestamp == b.timestamp,
        built_aps(b).event == b.event,
        built_aps(b).content_state == b.content_state,
        built_aps(b).attributes_type == b.attributes_type,
        built_aps(b).attributes == b.attributes,
        built_aps(b).input_push_channel == b.input_push_channel,
        built_aps(b).input_push_token == b.input_push_token,
        b.has_edited_alert ==> built_aps(b).alert == Some(AlertContent::Default(b.alert)),
        !b.has_edited_alert ==> (built_aps(b).alert is Some <==> b.alert.body is Some),
        !b.has_edited_alert ==> (b.alert.body matches Some(body) ==> built_aps(b).alert == Some(
            AlertContent::Body(body),
        )),
        b.sound.critical ==> built_aps(b).sound == Some(SoundContent::Critical(b.sound)),
        !b.sound.critical ==> (built_aps(b).sound is Some <==> b.sound.name is Some),
        !b.sound.critical ==> (b.sound.name matches Some(n) ==> built_aps(b).sound == Some(
            SoundContent::Sound(n),
        )),
{
}

} // verus!
