use crate::json::{quoted, quoted_string, strs_model, ObjectWriter};
use crate::request::custom_data::CustomData;
use crate::request::notification::{NotificationBuilder, NotificationOptions};
use crate::request::payload::{
    AlertContent, APSAlert, APSSound, ApsModel, InterruptionLevel, Payload, SoundContent, APS,
};
use vstd::prelude::*;

verus! {

/// The alert of a Safari web push notification.
#[derive(Debug, Clone)]
pub struct WebPushAlert<'a> {
    pub title: &'a str,
    pub body: &'a str,
    pub action: &'a str,
}

/// The model of a [`WebPushAlert`].
pub struct WebPushModel {
    pub title: Seq<char>,
    pub body: Seq<char>,
    pub action: Seq<char>,
}

impl<'a> View for WebPushAlert<'a> {
    type V = WebPushModel;

    open spec fn view(&self) -> WebPushModel {
        WebPushModel { title: self.title@, body: self.body@, action: self.action@ }
    }
}

/// The members of the JSON object of a web push alert.
pub open spec fn web_push_members(m: WebPushModel) -> Seq<Seq<char>> {
    seq![
        "\"title\":"@ + quoted(m.title),
        "\"body\":"@ + quoted(m.body),
        "\"action\":"@ + quoted(m.action),
    ]
}

impl<'a> WebPushAlert<'a> {
    /// Appends the JSON object of this alert.
    pub(crate) fn write_json(&self, out: &mut String)
        ensures
            final(out)@ == old(out)@ + seq!['{'] + crate::json::join(web_push_members(self@))
                + seq!['}'],
    {
        let mut w = ObjectWriter::begin(out);
        let t = quoted_string(self.title);
        w.member(out, "\"title\":", t.as_str());
        let b = quoted_string(self.body);
        w.member(out, "\"body\":", b.as_str());
        let a = quoted_string(self.action);
        w.member(out, "\"action\":", a.as_str());
        assert(w.members@ =~= web_push_members(self@));
        w.finish(out);
    }
}

/// A builder to create a simple APNs notification payload for Safari web
/// push.
pub struct WebNotificationBuilder<'a> {
    alert: WebPushAlert<'a>,
    sound: Option<&'a str>,
    url_args: &'a [&'a str],
    interruption_level: Option<InterruptionLevel>,
}

/// The model of a [`WebNotificationBuilder`].
pub struct WebBuilderModel {
    pub alert: WebPushModel,
    pub sound: Option<Seq<char>>,
    pub url_args: Seq<Seq<char>>,
    pub interruption_level: Option<InterruptionLevel>,
}

impl<'a> View for WebNotificationBuilder<'a> {
    type V = WebBuilderModel;

    closed spec fn view(&self) -> WebBuilderModel {
        WebBuilderModel {
            alert: self.alert@,
            sound: crate::json::opt_str(self.sound),
            url_args: strs_model(self.url_args@),
            interruption_level: self.interruption_level,
        }
    }
}

impl<'a> WebNotificationBuilder<'a> {
    /// Creates a new builder with the minimum amount of content.
    pub fn new(alert: WebPushAlert<'a>, url_args: &'a [&'a str]) -> (r: WebNotificationBuilder<'a>)
        ensures
            r@ == (WebBuilderModel {
                alert: alert@,
                sound: None,
                url_args: strs_model(url_args@),
                interruption_level: None,
            }),
    {
        WebNotificationBuilder { alert, sound: None, url_args, interruption_level: None }
    }

    /// File name of the custom sound to play when receiving the notification.
    pub fn set_sound(&mut self, sound: &'a str) -> (r: &mut Self)
        ensures
            (*r)@ == (WebBuilderModel { sound: Some(sound@), ..old(self)@ }),
            *final(self) == *final(r),
    {
        self.sound = Some(sound);
        self
    }

    /// Set the interruption level to active. The system presents the
    /// notification immediately, lights up the screen, and can play a sound.
    pub fn set_active_interruption_level(&mut self) -> (r: &mut Self)
        ensures
            (*r)@ == (WebBuilderModel {
                interruption_level: Some(InterruptionLevel::Active),
                ..old(self)@
            }),
            *final(self) == *final(r),
    {
        self.interruption_level = Some(InterruptionLevel::Active);
        self
    }

    /// Set the interruption level to critical. The system presents the
    /// notification immediately, lights up the screen, and bypasses the mute
    /// switch to play a sound.
    pub fn set_critical_interruption_level(&mut self) -> (r: &mut Self)
        ensures
            (*r)@ == (WebBuilderModel {
                interruption_level: Some(InterruptionLevel::Critical),
                ..old(self)@
            }),
            *final(self) == *final(r),
    {
        self.interruption_level = Some(InterruptionLevel::Critical);
        self
    }

    /// Set the interruption level to passive. The system adds the
    /// notification to the notification list without lighting up the screen
    /// or playing a sound.
    pub fn set_passive_interruption_level(&mut self) -> (r: &mut Self)
        ensures
            (*r)@ == (WebBuilderModel {
                interruption_level: Some(InterruptionLevel::Passive),
                ..old(self)@
            }),
            *final(self) == *final(r),
    {
        self.interruption_level = Some(InterruptionLevel::Passive);
        self
    }

    /// Set the interruption level to time sensitive. The system presents the
    /// notification immediately, lights up the screen, can play a sound, and
    /// breaks through system notification controls.
    pub fn set_time_sensitive_interruption_level(&mut self) -> (r: &mut Self)
        ensures
            (*r)@ == (WebBuilderModel {
                interruption_level: Some(InterruptionLevel::TimeSensitive),
                ..old(self)@
            }),
            *final(self) == *final(r),
    {
        self.interruption_level = Some(InterruptionLevel::TimeSensitive);
        self
    }

    /// Set the interruption level directly. Controls how the notification is
    /// presented to the user.
    pub fn set_interruption_level(&mut self, level: InterruptionLevel) -> (r: &mut Self)
        ensures
            (*r)@ == (WebBuilderModel { interruption_level: Some(level), ..old(self)@ }),
            *final(self) == *final(r),
    {
        self.interruption_level = Some(level);
        self
    }
}


/// The `aps` object that a web push builder produces.
pub open spec fn built_web_aps(b: WebBuilderModel) -> ApsModel {
    ApsModel {
        alert: Some(AlertContent::WebPush(b.alert)),
        badge: None,
        sound: match b.sound {
            Some(name) => Some(SoundContent::Sound(name)),
            None => None,
        },
        thread_id: None,
        content_available: None,
        category: None,
        mutable_content: None,
        interruption_level: b.interruption_level,
        dismissal_date: None,
        url_args: Some(b.url_args),
        timestamp: None,
        event: None,
        content_state: None,
        attributes_type: None,
        attributes: None,
        input_push_channel: None,
        input_push_token: None,
    }
}

impl<'a> NotificationBuilder<'a> for WebNotificationBuilder<'a> {
    fn build(self, device_token: &'a str, options: NotificationOptions<'a>) -> (r: Payload<'a>)
        ensures
            r@ == (crate::request::payload::PayloadModel {
                device_token: device_token@,
                aps: built_web_aps(self@),
                data: Seq::empty(),
            }),
            r.options == options,
    {
        let ghost m = self@;
        let sound = match self.sound {
            Some(name) => Some(APSSound::Sound(name)),
            None => None,
        };
        let r = Payload {
            aps: APS {
                alert: Some(APSAlert::WebPush(self.alert)),
                badge: None,
                sound,
                thread_id: None,
                content_available: None,
                category: None,
                mutable_content: None,
                interruption_level: self.interruption_level,
                dismissal_date: None,
                url_args: Some(self.url_args),
                timestamp: None,
                event: None,
                content_state: None,
                attributes_type: None,
                attributes: None,
                input_push_channel: None,
                input_push_token: None,
            },
            device_token,
            options,
            data: CustomData::new(),
        };
        assert(r.aps@ == built_web_aps(m));
        r
    }
}


/// A web push alert is written with its title, body and action, each under
/// its own key as a string literal, and nothing else.
pub proof fn lemma_web_push_members(m: WebPushModel)
    ensures
        web_push_members(m).len() == 3,
        web_push_members(m).contains("\"title\":"@ + quoted(m.title)),
        web_push_members(m).contains("\"body\":"@ + quoted(m.body)),
        web_push_members(m).contains("\"action\":"@ + quoted(m.action)),
{
    assert(web_push_members(m)[0] == "\"title\":"@ + quoted(m.title));
    assert(web_push_members(m)[1] == "\"body\":"@ + quoted(m.body));
    assert(web_push_members(m)[2] == "\"action\":"@ + quoted(m.action));
}

/// Building a web push payload keeps the builder's alert, every one of its
/// URL arguments in order, its sound name and its interruption level, and
/// sets nothing else.
pub proof fn lemma_web_build_carries_fields(b: WebBuilderModel)
    ensures
        built_web_aps(b).alert == Some(AlertContent::WebPush(b.alert)),
        built_web_aps(b).url_args == Some(b.url_args),
        built_web_aps(b).interruption_level == b.interruption_level,
        built_web_aps(b).sound is Some <==> b.sound is Some,
        b.sound matches Some(n) ==> built_web_aps(b).sound == Some(SoundContent::Sound(n)),
        built_web_aps(b).badge is None,
        built_web_aps(b).mutable_content is None,
        built_web_aps(b).content_available is None,
        built_web_aps(b).thread_id is None,
        built_web_aps(b).category is None,
{
}

/// The URL arguments that a new web builder carries into its payload are
/// the strings it was given, all of them and in order, whatever their
/// number.
pub proof fn lemma_web_url_args(alert: WebPushModel, args: Seq<&str>)
    ensures
        ({
            let b = WebBuilderModel {
                alert: alert,
                sound: None,
                url_args: strs_model(args),
                interruption_level: None,
            };
            &&& built_web_aps(b).url_args matches Some(u)
            &&& u.len() == args.len()
            &&& forall|i: int| 0 <= i < args.len() ==> #[trigger] u[i] == args[i]@
        }),
{
    crate::json::lemma_strs_model(args);
}

} // verus!
