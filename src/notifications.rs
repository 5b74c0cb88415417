//! Notifications as shown to the user: how one is derived from a message, and
//! what each platform's delivery mechanism is handed.
use vstd::prelude::*;

use crate::config::{persists, NotificationSound, PersistentNotificationMode};
use crate::ntfy::{opt_view, NtfyMessage};
use crate::text::{chars_of, push_char, push_chars, views};
use crate::timefmt::{
    as_signed, civil_at, clock_text, format_arrival, has_date, unknown_time_text, CivilTime,
};

verus! {

/// Hands notifications to the platform.
#[derive(Debug, Clone, Copy)]
pub struct NotificationManager;

impl NotificationManager {
    pub fn new() -> Self {
        NotificationManager
    }
}

impl Default for NotificationManager {
    fn default() -> Self {
        NotificationManager::new()
    }
}

/// A notification ready to be shown.
#[derive(Debug, Clone)]
pub struct NotificationData {
    pub title: String,
    pub subtitle: Option<String>,
    pub message: String,
    pub topic: String,
    pub timestamp: u64,
    pub urgent: bool,
    pub sound: NotificationSound,
    pub persistent: bool,
    pub icon_url: Option<String>,
}

/// The settings that decide how a message is presented.
#[derive(Debug, Clone, Copy, PartialEq, Eq, Structural)]
pub struct NotificationPolicy {
    pub urgent_priority_threshold: u8,
    pub notification_sound: NotificationSound,
    pub urgent_notification_sound: NotificationSound,
    pub persistent_notifications_mode: PersistentNotificationMode,
}

/// The priority of a message that states none.
pub const DEFAULT_PRIORITY: u8 = 3;

/// The title shown for a message without one.
pub open spec fn placeholder_title() -> Seq<char> {
    "New Notification"@
}

/// The topic named for a message that states none.
pub open spec fn placeholder_topic() -> Seq<char> {
    "ntfy"@
}

/// The message's title if it has a non-empty one, else the placeholder.
pub open spec fn display_title(title: Option<Seq<char>>) -> Seq<char> {
    match title {
        Some(t) => if t.len() > 0 { t } else { placeholder_title() },
        None => placeholder_title(),
    }
}

/// The message's topic, or the placeholder.
pub open spec fn display_topic(topic: Option<Seq<char>>) -> Seq<char> {
    match topic {
        Some(t) => t,
        None => placeholder_topic(),
    }
}

/// The body: the message text followed by its topic, or the topic alone
/// when the text is empty.
pub open spec fn display_body(text: Seq<char>, topic: Seq<char>) -> Seq<char> {
    if text.len() == 0 {
        "Topic: "@ + topic
    } else {
        text + "\n\nTopic: "@ + topic
    }
}

/// Whether a message of the given priority is urgent under `threshold`.
pub open spec fn is_urgent(priority: Option<u8>, threshold: u8) -> bool {
    match priority {
        Some(p) => p >= threshold,
        None => DEFAULT_PRIORITY >= threshold,
    }
}

/// The sound for a notification of the given urgency.
pub open spec fn sound_for(p: NotificationPolicy, urgent: bool) -> NotificationSound {
    if urgent {
        p.urgent_notification_sound
    } else {
        p.notification_sound
    }
}

/// Whether `d` presents `m` under `p`, with `subtitle` as its second line.
pub open spec fn presents(d: NotificationData, m: NtfyMessage, p: NotificationPolicy, subtitle: Seq<char>) -> bool {
    let urgent = is_urgent(m.priority, p.urgent_priority_threshold);
    let text = match opt_view(m.message) {
        Some(t) => t,
        None => Seq::empty(),
    };
    &&& d.title@ == display_title(opt_view(m.title))
    &&& opt_view(d.subtitle) == Some(subtitle)
    &&& d.topic@ == display_topic(opt_view(m.topic))
    &&& d.message@ == display_body(text, d.topic@)
    &&& d.timestamp == m.time
    &&& d.urgent == urgent
    &&& d.sound == sound_for(p, urgent)
    &&& d.persistent == persists(p.persistent_notifications_mode, urgent)
    &&& opt_view(d.icon_url) == opt_view(m.icon)
}

/// A notification composed directly rather than from a message: the title
/// doubles as topic, with no second line, time or icon.
pub fn compose_notification(title: &str, message: &str, urgent: bool, sound: NotificationSound, persistent: bool) -> (r: NotificationData)
    ensures
        r.title@ == title@,
        r.subtitle is None,
        r.message@ == message@,
        r.topic@ == title@,
        r.timestamp == 0,
        r.urgent == urgent,
        r.sound == sound,
        r.persistent == persistent,
        r.icon_url is None,
{
    NotificationData {
        title: String::from_str(title),
        subtitle: None,
        message: String::from_str(message),
        topic: String::from_str(title),
        timestamp: 0,
        urgent,
        sound,
        persistent,
        icon_url: None,
    }
}

/// Whether `s` is what a message time is displayed as: its UTC date and
/// time, or `now` where the timestamp has no date.
pub open spec fn is_arrival_text(s: Seq<char>, time: u64) -> bool {
    if has_date(as_signed(time)) {
        exists|c: CivilTime| c.wf() && civil_at(c, as_signed(time)) && s == clock_text(c)
    } else {
        s == unknown_time_text()
    }
}

fn copy_opt(o: &Option<String>) -> (r: Option<String>)
    ensures
        r == *o,
{
    match o {
        Some(s) => Some(s.clone()),
        None => None,
    }
}

/// The notification that presents `m` under `p`, with `subtitle` as its
/// second line.
pub fn present_message(m: &NtfyMessage, p: &NotificationPolicy, subtitle: String) -> (r: NotificationData)
    ensures
        presents(r, *m, *p, subtitle@),
{
    let topic = match &m.topic {
        Some(t) => t.clone(),
        None => String::from_str("ntfy"),
    };
    let title = match &m.title {
        Some(t) => if t.as_str().is_empty() {
            String::from_str("New Notification")
        } else {
            t.clone()
        },
        None => String::from_str("New Notification"),
    };
    let text: &str = match &m.message {
        Some(t) => t.as_str(),
        None => "",
    };
    proof {
        reveal_strlit("");
    }
    let mut body = String::new();
    if text.is_empty() {
        push_chars(&mut body, chars_of("Topic: ").as_slice());
    } else {
        push_chars(&mut body, chars_of(text).as_slice());
        push_chars(&mut body, chars_of("\n\nTopic: ").as_slice());
    }
    push_chars(&mut body, chars_of(topic.as_str()).as_slice());
    let priority = match m.priority {
        Some(v) => v,
        None => DEFAULT_PRIORITY,
    };
    let urgent = priority >= p.urgent_priority_threshold;
    let sound = if urgent { p.urgent_notification_sound } else { p.notification_sound };
    let persistent = match p.persistent_notifications_mode {
        PersistentNotificationMode::Off => false,
        PersistentNotificationMode::All => true,
        PersistentNotificationMode::UrgentOnly => urgent,
    };
    NotificationData {
        title,
        subtitle: Some(subtitle),
        message: body,
        topic,
        timestamp: m.time,
        urgent,
        sound,
        persistent,
        icon_url: copy_opt(&m.icon),
    }
}

/// The notification for `m` under `p`, its second line being the arrival
/// time.
pub fn notification_for(m: &NtfyMessage, p: &NotificationPolicy) -> (r: NotificationData)
    ensures
        r.subtitle is Some,
        presents(r, *m, *p, r.subtitle->0@),
        is_arrival_text(r.subtitle->0@, m.time),
{
    let subtitle = format_arrival(m.time);
    present_message(m, p, subtitle)
}

/// The identity notifications are shown under.
pub open spec fn app_id() -> Seq<char> {
    "com.anthony.ntfy.desktop"@
}

/// The mark put before the title of an urgent notification: a bell and a
/// space.
pub open spec fn urgent_mark() -> Seq<char> {
    seq!['\u{1F514}', ' ']
}

/// The title as displayed: marked when urgent.
pub open spec fn shown_title(d: NotificationData) -> Seq<char> {
    if d.urgent {
        urgent_mark() + d.title@
    } else {
        d.title@
    }
}

/// The toast subsystem's name of a sound, or none for silence.
pub open spec fn sound_token(s: NotificationSound) -> Option<Seq<char>> {
    match s {
        NotificationSound::Silent => None,
        NotificationSound::Alert => Some("Notification.Default"@),
        NotificationSound::Bell => Some("Notification.IM"@),
        NotificationSound::Chime => Some("Notification.SMS"@),
        NotificationSound::Pop => Some("Notification.Looping.Alarm"@),
        NotificationSound::Default => Some("Notification.Default"@),
    }
}

/// The arguments of the toast helper for `d`, with `icon` as its picture.
pub open spec fn toast_args_of(d: NotificationData, icon: Option<Seq<char>>) -> Seq<Seq<char>> {
    seq!["-t"@, shown_title(d), "-m"@, d.message@]
        + (match icon {
            Some(p) => seq!["-p"@, p],
            None => Seq::empty(),
        })
        + (match sound_token(d.sound) {
            Some(t) => seq!["-s"@, t],
            None => seq!["-silent"@],
        })
        + (if d.persistent { seq!["-persistent"@, "true"@] } else { Seq::empty() })
        + (if d.urgent { seq!["-d"@, "long"@] } else { Seq::empty() })
        + seq!["-appID"@, app_id()]
}

/// Whether the toast helper's exit code reports the toast as shown:
/// delivered, hidden, dismissed, timed out, a button pressed or text entered.
pub open spec fn toast_shown(code: i32) -> bool {
    0 <= code <= 5
}

/// A toast for the library fallback.
#[derive(Debug, Clone)]
pub struct FallbackToast {
    pub appname: String,
    pub summary: String,
    pub body: String,
    pub icon: Option<String>,
    pub sound_name: Option<String>,
    /// Stays until dismissed rather than timing out.
    pub never_expires: bool,
}

/// `s` inside an AppleScript string literal: backslashes and quotes escaped.
pub open spec fn escape_quoted(s: Seq<char>) -> Seq<char>
    decreases s.len(),
{
    if s.len() == 0 {
        Seq::empty()
    } else {
        escape_quoted(s.drop_last()) + (if s.last() == '\\' {
            seq!['\\', '\\']
        } else if s.last() == '"' {
            seq!['\\', '"']
        } else {
            seq![s.last()]
        })
    }
}

/// The AppleScript that shows `d`.
pub open spec fn script_of(d: NotificationData) -> Seq<char> {
    "display notification \""@ + escape_quoted(d.message@) + "\" with title \""@
        + escape_quoted(d.title@) + "\""@
}

/// The arguments of the command-line notifier for `d`.
pub open spec fn notify_send_args_of(d: NotificationData) -> Seq<Seq<char>> {
    seq![d.title@, d.message@] + (if d.urgent { seq!["-u"@, "critical"@] } else { Seq::empty() })
}

fn push_arg(v: &mut Vec<String>, s: &str)
    ensures
        views(final(v)@) == views(old(v)@).push(s@),
{
    v.push(String::from_str(s));
    assert(views(final(v)@) =~= views(old(v)@).push(s@));
}

fn push_string(v: &mut Vec<String>, s: String)
    ensures
        views(final(v)@) == views(old(v)@).push(s@),
{
    let ghost x = s@;
    v.push(s);
    assert(views(final(v)@) =~= views(old(v)@).push(x));
}

/// The title as displayed: marked with a bell when urgent.
pub fn display_title_of(d: &NotificationData) -> (r: String)
    ensures
        r@ == shown_title(*d),
{
    if d.urgent {
        let mut r = String::new();
        push_char(&mut r, '\u{1F514}');
        push_char(&mut r, ' ');
        push_chars(&mut r, chars_of(d.title.as_str()).as_slice());
        r
    } else {
        d.title.clone()
    }
}

/// The toast subsystem's name of a sound, or none for silence.
pub fn sound_name(s: NotificationSound) -> (r: Option<String>)
    ensures
        opt_view(r) == sound_token(s),
{
    match s {
        NotificationSound::Silent => None,
        NotificationSound::Alert => Some(String::from_str("Notification.Default")),
        NotificationSound::Bell => Some(String::from_str("Notification.IM")),
        NotificationSound::Chime => Some(String::from_str("Notification.SMS")),
        NotificationSound::Pop => Some(String::from_str("Notification.Looping.Alarm")),
        NotificationSound::Default => Some(String::from_str("Notification.Default")),
    }
}

/// The arguments of the toast helper for `d`, with `icon` as its picture.
pub fn toast_args(d: &NotificationData, icon: Option<String>) -> (r: Vec<String>)
    ensures
        views(r@) == toast_args_of(*d, opt_view(icon)),
{
    let mut r: Vec<String> = Vec::new();
    let ghost icon_view = opt_view(icon);
    push_arg(&mut r, "-t");
    push_string(&mut r, display_title_of(d));
    push_arg(&mut r, "-m");
    push_string(&mut r, d.message.clone());
    let ghost a = views(r@);
    match icon {
        Some(p) => {
            push_arg(&mut r, "-p");
            push_string(&mut r, p);
        },
        None => {},
    }
    let ghost b = views(r@);
    match sound_name(d.sound) {
        Some(t) => {
            push_arg(&mut r, "-s");
            push_string(&mut r, t);
        },
        None => push_arg(&mut r, "-silent"),
    }
    let ghost c = views(r@);
    if d.persistent {
        push_arg(&mut r, "-persistent");
        push_arg(&mut r, "true");
    }
    let ghost e = views(r@);
    if d.urgent {
        push_arg(&mut r, "-d");
        push_arg(&mut r, "long");
    }
    let ghost f = views(r@);
    push_arg(&mut r, "-appID");
    push_arg(&mut r, "com.anthony.ntfy.desktop");
    proof {
        let icon_part: Seq<Seq<char>> = match icon_view {
            Some(p) => seq!["-p"@, p],
            None => Seq::empty(),
        };
        let sound_part: Seq<Seq<char>> = match sound_token(d.sound) {
            Some(t) => seq!["-s"@, t],
            None => seq!["-silent"@],
        };
        let persist_part: Seq<Seq<char>> = if d.persistent {
            seq!["-persistent"@, "true"@]
        } else {
            Seq::empty()
        };
        let long_part: Seq<Seq<char>> = if d.urgent { seq!["-d"@, "long"@] } else { Seq::empty() };
        assert(a =~= seq!["-t"@, shown_title(*d), "-m"@, d.message@]);
        assert(b =~= a + icon_part);
        assert(c =~= b + sound_part);
        assert(e =~= c + persist_part);
        assert(f =~= e + long_part);
        assert(views(r@) =~= f + seq!["-appID"@, app_id()]);
    }
    r
}

/// Whether the toast helper's exit code reports the toast as shown.
pub fn toast_exit_ok(code: i32) -> (r: bool)
    ensures
        r == toast_shown(code),
{
    0 <= code && code <= 5
}

/// The library toast standing in when the helper cannot show `d`: the same
/// title, body, picture and sound, and no timeout when persistent.
pub fn fallback_toast(d: &NotificationData, icon: Option<String>) -> (r: FallbackToast)
    ensures
        r.appname@ == app_id(),
        r.summary@ == shown_title(*d),
        r.body == d.message,
        r.icon == icon,
        opt_view(r.sound_name) == sound_token(d.sound),
        r.never_expires == d.persistent,
{
    FallbackToast {
        appname: String::from_str("com.anthony.ntfy.desktop"),
        summary: display_title_of(d),
        body: d.message.clone(),
        icon,
        sound_name: sound_name(d.sound),
        never_expires: d.persistent,
    }
}

/// Appends `s` escaped for an AppleScript string literal.
fn push_escaped(out: &mut String, s: &str)
    ensures
        final(out)@ == old(out)@ + escape_quoted(s@),
{
    let v = chars_of(s);
    let mut i: usize = 0;
    assert(v@.take(0) =~= Seq::<char>::empty());
    while i < v.len()
        invariant
            v@ == s@,
            i <= v@.len(),
            out@ == old(out)@ + escape_quoted(v@.take(i as int)),
        decreases v@.len() - i,
    {
        let c = v[i];
        let ghost before = out@;
        if c == '\\' {
            push_char(out, '\\');
            push_char(out, '\\');
        } else if c == '"' {
            push_char(out, '\\');
            push_char(out, '"');
        } else {
            push_char(out, c);
        }
        proof {
            assert(v@.take(i + 1).drop_last() == v@.take(i as int));
            assert(v@.take(i + 1).last() == c);
            let piece = if c == '\\' {
                seq!['\\', '\\']
            } else if c == '"' {
                seq!['\\', '"']
            } else {
                seq![c]
            };
            assert(out@ =~= before + piece);
        }
        i += 1;
    }
    assert(v@.take(v@.len() as int) == v@);
}

/// The AppleScript that shows `d` through the notification center.
pub fn apple_script(d: &NotificationData) -> (r: String)
    ensures
        r@ == script_of(*d),
{
    let mut r = String::new();
    push_chars(&mut r, chars_of("display notification \"").as_slice());
    push_escaped(&mut r, d.message.as_str());
    push_chars(&mut r, chars_of("\" with title \"").as_slice());
    push_escaped(&mut r, d.title.as_str());
    push_chars(&mut r, chars_of("\"").as_slice());
    r
}

/// The arguments of the command-line notifier: title and body, and critical
/// urgency for an urgent notification.
pub fn notify_send_args(d: &NotificationData) -> (r: Vec<String>)
    ensures
        views(r@) == notify_send_args_of(*d),
{
    let mut r: Vec<String> = Vec::new();
    push_string(&mut r, d.title.clone());
    push_string(&mut r, d.message.clone());
    if d.urgent {
        push_arg(&mut r, "-u");
        push_arg(&mut r, "critical");
    }
    r
}

} // verus!
