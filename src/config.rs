//! User configuration and the rules derived from it.
use vstd::prelude::*;

use crate::text::{
    chars_of, ends_with, same_chars, join, join_with, nonblank_pieces, nonblank_pieces_of, string_of, trim_end_char,
    trim_end_seq, views, without_trailing, without_trailing_seq,
};

verus! {

/// When a notification stays on screen until the user dismisses it.
#[derive(Debug, Clone, Copy, PartialEq, Eq, Structural)]
pub enum PersistentNotificationMode {
    Off,
    All,
    UrgentOnly,
}

impl Default for PersistentNotificationMode {
    fn default() -> (r: Self)
        ensures
            r == PersistentNotificationMode::Off,
    {
        PersistentNotificationMode::Off
    }
}

/// The sounds a notification can play.
#[derive(Debug, Clone, Copy, PartialEq, Eq, Structural)]
pub enum NotificationSound {
    Default,
    Silent,
    Alert,
    Bell,
    Chime,
    Pop,
}

/// The sound a settings name stands for: `none`, `alert`, `bell`, `chime`,
/// `pop`, and the default one for any other name.
pub open spec fn sound_named(name: Seq<char>) -> NotificationSound {
    if name == "none"@ {
        NotificationSound::Silent
    } else if name == "alert"@ {
        NotificationSound::Alert
    } else if name == "bell"@ {
        NotificationSound::Bell
    } else if name == "chime"@ {
        NotificationSound::Chime
    } else if name == "pop"@ {
        NotificationSound::Pop
    } else {
        NotificationSound::Default
    }
}

impl NotificationSound {
    /// The sound a settings name stands for.
    pub fn from_name(name: &str) -> (r: Self)
        ensures
            r == sound_named(name@),
    {
        if same_chars(name, "none") {
            NotificationSound::Silent
        } else if same_chars(name, "alert") {
            NotificationSound::Alert
        } else if same_chars(name, "bell") {
            NotificationSound::Bell
        } else if same_chars(name, "chime") {
            NotificationSound::Chime
        } else if same_chars(name, "pop") {
            NotificationSound::Pop
        } else {
            NotificationSound::Default
        }
    }
}

impl Default for NotificationSound {
    fn default() -> (r: Self)
        ensures
            r == NotificationSound::Default,
    {
        NotificationSound::Default
    }
}

/// The application's settings. Credentials come from the system keychain and
/// are never written with the rest.
#[derive(Debug, Clone)]
pub struct AppConfig {
    pub instance_url: String,
    pub api_token: String,
    pub auth_user: String,
    pub auth_pass: String,
    pub topics: String,
    pub poll_rate: u64,
    pub datetime_format: String,
    /// Superseded by `persistent_notifications_mode`; read for older files.
    pub persistent_notifications: bool,
    pub persistent_notifications_mode: PersistentNotificationMode,
    pub notification_sound: NotificationSound,
    pub urgent_notification_sound: NotificationSound,
    pub self_hosted_instance: bool,
    pub start_hidden: bool,
    pub quit_on_close: bool,
    pub hotkeys_enabled: bool,
    pub dev_tools: bool,
    pub welcome_completed: bool,
    pub urgent_priority_threshold: u8,
}

/// Shortest poll interval, in seconds.
pub const MIN_POLL_RATE: u64 = 5;

/// Longest poll interval, in seconds.
pub const MAX_POLL_RATE: u64 = 3600;

/// The path segment of the web app, which the API does not use.
pub open spec fn app_suffix() -> Seq<char> {
    seq!['/', 'a', 'p', 'p']
}

/// The API base of an instance URL: trailing slashes removed, then every
/// trailing `/app`.
pub open spec fn api_base(url: Seq<char>) -> Seq<char> {
    trim_end_seq(trim_end_char(url, '/'), app_suffix())
}

/// `rate` brought into the accepted interval.
pub open spec fn clamp_poll_rate(rate: u64) -> u64 {
    if rate < MIN_POLL_RATE {
        MIN_POLL_RATE
    } else if rate > MAX_POLL_RATE {
        MAX_POLL_RATE
    } else {
        rate
    }
}

/// Whether a notification of the given urgency stays on screen under `mode`.
pub open spec fn persists(mode: PersistentNotificationMode, urgent: bool) -> bool {
    match mode {
        PersistentNotificationMode::Off => false,
        PersistentNotificationMode::All => true,
        PersistentNotificationMode::UrgentOnly => urgent,
    }
}

/// The topics named by a comma-separated list.
pub open spec fn topic_names(topics: Seq<char>) -> Seq<Seq<char>> {
    nonblank_pieces(topics, ',')
}

/// Normalising an instance URL takes off a trailing `/app` or `/app/` and
/// leaves a bare host unchanged, adding no slash: for a host that ends neither
/// with a slash nor with `/app`, the URLs `host/app`, `host/app/` and `host`
/// all have `host` as their API base.
pub proof fn lemma_api_base_of_host(host: Seq<char>)
    requires
        host.len() == 0 || host.last() != '/',
        !ends_with(host, app_suffix()),
    ensures
        api_base(host + app_suffix()) == host,
        api_base(host + app_suffix().push('/')) == host,
        api_base(host) == host,
{
    let with_app = host + app_suffix();
    let with_slash = with_app.push('/');
    assert(trim_end_char(host, '/') == host);
    assert(with_app.last() == 'p');
    assert(trim_end_char(with_app, '/') == with_app);
    assert(with_slash.drop_last() == with_app);
    assert(trim_end_char(with_slash, '/') == with_app);
    assert(with_app.subrange(with_app.len() - 4, with_app.len() as int) == app_suffix());
    assert(with_app.subrange(0, with_app.len() - 4) == host);
    assert(trim_end_seq(host, app_suffix()) == host);
    assert(trim_end_seq(with_app, app_suffix()) == host);
}

/// The API base of `url`.
pub fn normalize_base_url(url: &str) -> (r: String)
    ensures
        r@ == api_base(url@),
{
    let v = chars_of(url);
    let no_slash = without_trailing(v.as_slice(), '/');
    let suffix: Vec<char> = vec!['/', 'a', 'p', 'p'];
    assert(suffix@ == app_suffix());
    let base = without_trailing_seq(no_slash.as_slice(), suffix.as_slice());
    string_of(base.as_slice())
}

impl AppConfig {
    /// The base URL for API calls: the instance URL without trailing slashes
    /// and without a trailing `/app`.
    pub fn api_base_url(&self) -> (r: String)
        ensures
            r@ == api_base(self.instance_url@),
    {
        normalize_base_url(self.instance_url.as_str())
    }

    /// The subscribed topics: the comma-separated pieces, trimmed, blank ones
    /// left out.
    pub fn topics_list(&self) -> (r: Vec<String>)
        ensures
            views(r@) == topic_names(self.topics@),
    {
        nonblank_pieces_of(self.topics.as_str(), ',')
    }

    /// The topics as the comma-separated path segment of the API.
    pub fn topics_path(&self) -> (r: String)
        ensures
            r@ == join(topic_names(self.topics@), ','),
    {
        let list = self.topics_list();
        join_with(&list, ',')
    }

    /// The poll interval, brought into `[5, 3600]` seconds.
    pub fn effective_poll_rate(&self) -> (r: u64)
        ensures
            r == clamp_poll_rate(self.poll_rate),
            MIN_POLL_RATE <= r <= MAX_POLL_RATE,
    {
        if self.poll_rate < MIN_POLL_RATE {
            MIN_POLL_RATE
        } else if self.poll_rate > MAX_POLL_RATE {
            MAX_POLL_RATE
        } else {
            self.poll_rate
        }
    }

    /// Whether a notification of the given urgency stays on screen.
    pub fn should_persist_notification(&self, is_urgent: bool) -> (r: bool)
        ensures
            r == persists(self.persistent_notifications_mode, is_urgent),
    {
        match self.persistent_notifications_mode {
            PersistentNotificationMode::Off => false,
            PersistentNotificationMode::All => true,
            PersistentNotificationMode::UrgentOnly => is_urgent,
        }
    }

    /// The sound for a notification of the given urgency.
    pub fn notification_sound_for(&self, is_urgent: bool) -> (r: &NotificationSound)
        ensures
            *r == (if is_urgent {
                self.urgent_notification_sound
            } else {
                self.notification_sound
            }),
    {
        if is_urgent {
            &self.urgent_notification_sound
        } else {
            &self.notification_sound
        }
    }
}

impl Default for AppConfig {
    fn default() -> (r: Self)
        ensures
            r.instance_url@ == "https://ntfy.sh/app"@,
            r.api_token@ == Seq::<char>::empty(),
            r.auth_user@ == Seq::<char>::empty(),
            r.auth_pass@ == Seq::<char>::empty(),
            r.topics@ == "announcements,stats"@,
            r.poll_rate == 60,
            r.datetime_format@ == "YYYY-MM-DD hh:mm a"@,
            !r.persistent_notifications,
            r.persistent_notifications_mode == PersistentNotificationMode::Off,
            r.notification_sound == NotificationSound::Default,
            r.urgent_notification_sound == NotificationSound::Default,
            !r.self_hosted_instance,
            !r.start_hidden,
            !r.quit_on_close,
            !r.hotkeys_enabled,
            !r.dev_tools,
            !r.welcome_completed,
            r.urgent_priority_threshold == 4,
    {
        AppConfig {
            instance_url: String::from_str("https://ntfy.sh/app"),
            api_token: String::new(),
            auth_user: String::new(),
            auth_pass: String::new(),
            topics: String::from_str("announcements,stats"),
            poll_rate: 60,
            datetime_format: String::from_str("YYYY-MM-DD hh:mm a"),
            persistent_notifications: false,
            persistent_notifications_mode: PersistentNotificationMode::Off,
            notification_sound: NotificationSound::Default,
            urgent_notification_sound: NotificationSound::Default,
            self_hosted_instance: false,
            start_hidden: false,
            quit_on_close: false,
            hotkeys_enabled: false,
            dev_tools: false,
            welcome_completed: false,
            urgent_priority_threshold: 4,
        }
    }
}

} // verus!
