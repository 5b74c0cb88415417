//! The decisions of the poll loop. The caller owns the clock, the network and
//! the display: it asks how to start a cycle, performs the poll, and hands the
//! outcome back to learn what to deliver and what to announce.
use vstd::prelude::*;

use crate::config::{api_base, clamp_poll_rate, topic_names, AppConfig};
use crate::text::join;
use crate::dedup::{admitted, SeenIds};
use crate::notifications::{is_arrival_text, notification_for, presents, NotificationData, NotificationPolicy};
use crate::ntfy::{credential, message_events, opt_view, retain_message_events, NtfyClient, NtfyMessage, PollError};

verus! {

/// Seconds to wait before retrying when a cycle is already running.
pub const BUSY_RETRY_SECS: u64 = 1;

/// Seconds to wait before looking again when no topic is configured.
pub const NO_TOPICS_RETRY_SECS: u64 = 5;

/// Seconds between two clearings of the seen identifiers.
pub const CLEANUP_INTERVAL_SECS: u64 = 3600;

/// What one cycle reads from the configuration, copied out at its start.
#[derive(Debug, Clone)]
pub struct CycleSettings {
    pub topics_path: String,
    pub poll_rate: u64,
    pub api_token: String,
    pub auth_user: String,
    pub auth_pass: String,
    pub base_url: String,
    pub policy: NotificationPolicy,
}

/// The state the loop carries from cycle to cycle.
#[derive(Debug)]
pub struct PollState {
    /// Identifiers delivered in this epoch.
    pub seen: SeenIds,
    /// Whether a cycle holds the guard.
    pub polling: bool,
    /// When the seen identifiers were last cleared, in seconds of the
    /// caller's monotonic clock.
    pub last_cleanup: u64,
}

/// How a cycle begins.
#[derive(Debug, Clone)]
pub enum CycleStart {
    /// Another cycle holds the guard: wait `BUSY_RETRY_SECS` and try again.
    Busy,
    /// No topic is configured: wait `NO_TOPICS_RETRY_SECS` and try again.
    NoTopics,
    /// Poll these topics for what arrived in the last `since` seconds.
    Poll { topics_path: String, since: u64 },
}

/// A message to show, and the notification that presents it.
#[derive(Debug, Clone)]
pub struct Delivery {
    pub message: NtfyMessage,
    pub notification: NotificationData,
}

/// What a finished cycle asks the caller to do: show each delivery and
/// announce it, in order, then announce the badge count if there is one.
#[derive(Debug, Clone)]
pub struct CycleReport {
    pub deliveries: Vec<Delivery>,
    pub badge: Option<u64>,
}

/// Seconds from `since` to `now` on a clock that may not be monotonic: none
/// when `now` lies before `since`.
pub open spec fn elapsed(since: u64, now: u64) -> u64 {
    if now >= since {
        (now - since) as u64
    } else {
        0
    }
}

/// Whether the seen identifiers are due for clearing.
pub open spec fn cleanup_due(last_cleanup: u64, now: u64) -> bool {
    elapsed(last_cleanup, now) > CLEANUP_INTERVAL_SECS
}

/// The notification policy of `c`.
pub open spec fn policy_of(c: AppConfig) -> NotificationPolicy {
    NotificationPolicy {
        urgent_priority_threshold: c.urgent_priority_threshold,
        notification_sound: c.notification_sound,
        urgent_notification_sound: c.urgent_notification_sound,
        persistent_notifications_mode: c.persistent_notifications_mode,
    }
}

/// The settings one cycle copies out of `c`.
pub fn snapshot(c: &AppConfig) -> (r: CycleSettings)
    ensures
        r.topics_path@ == join(topic_names(c.topics@), ','),
        r.poll_rate == clamp_poll_rate(c.poll_rate),
        r.api_token == c.api_token,
        r.auth_user == c.auth_user,
        r.auth_pass == c.auth_pass,
        r.base_url@ == api_base(c.instance_url@),
        r.policy == policy_of(*c),
{
    CycleSettings {
        topics_path: c.topics_path(),
        poll_rate: c.effective_poll_rate(),
        api_token: c.api_token.clone(),
        auth_user: c.auth_user.clone(),
        auth_pass: c.auth_pass.clone(),
        base_url: c.api_base_url(),
        policy: NotificationPolicy {
            urgent_priority_threshold: c.urgent_priority_threshold,
            notification_sound: c.notification_sound,
            urgent_notification_sound: c.urgent_notification_sound,
            persistent_notifications_mode: c.persistent_notifications_mode,
        },
    }
}

/// Whether `r` reports the delivery of `d`, in order, under `p`.
pub open spec fn reports(r: CycleReport, d: Seq<NtfyMessage>, p: NotificationPolicy) -> bool {
    &&& r.deliveries@.len() == d.len()
    &&& forall|i: int| 0 <= i < d.len() ==> {
        let x = #[trigger] r.deliveries@[i];
        &&& x.message == d[i]
        &&& x.notification.subtitle is Some
        &&& presents(x.notification, d[i], p, x.notification.subtitle->0@)
        &&& is_arrival_text(x.notification.subtitle->0@, d[i].time)
    }
    &&& r.badge == if d.len() > 0 {
        Some(d.len() as u64)
    } else {
        None
    }
}

impl PollState {
    /// The state before the first cycle, at time `now`.
    pub fn new(now: u64) -> (r: Self)
        ensures
            r.seen@ == Set::<Seq<char>>::empty(),
            !r.polling,
            r.last_cleanup == now,
    {
        PollState { seen: SeenIds::new(), polling: false, last_cleanup: now }
    }

    /// Starts a cycle: takes the guard unless it is held, gives it back at
    /// once when no topic is configured, and otherwise brings `client` up to
    /// date with the settings and names the poll to perform.
    pub fn begin_cycle(&mut self, settings: &CycleSettings, client: &mut NtfyClient) -> (r: CycleStart)
        ensures
            final(self).seen@ == old(self).seen@,
            final(self).last_cleanup == old(self).last_cleanup,
            old(self).polling ==> r is Busy && final(self).polling && *final(client) == *old(client),
            !old(self).polling && settings.topics_path@.len() == 0 ==> {
                &&& r is NoTopics
                &&& !final(self).polling
                &&& *final(client) == *old(client)
            },
            !old(self).polling && settings.topics_path@.len() > 0 ==> {
                &&& r matches CycleStart::Poll { topics_path, since }
                    && topics_path == settings.topics_path && since == settings.poll_rate
                &&& final(self).polling
                &&& final(client).base_url == settings.base_url
                &&& opt_view(final(client).api_token) == credential(settings.api_token@)
                &&& opt_view(final(client).auth_user) == credential(settings.auth_user@)
                &&& opt_view(final(client).auth_pass) == credential(settings.auth_pass@)
            },
    {
        if self.polling {
            return CycleStart::Busy;
        }
        if settings.topics_path.as_str().is_empty() {
            return CycleStart::NoTopics;
        }
        self.polling = true;
        client.update_from(
            settings.base_url.clone(),
            settings.api_token.clone(),
            settings.auth_user.clone(),
            settings.auth_pass.clone(),
        );
        CycleStart::Poll { topics_path: settings.topics_path.clone(), since: settings.poll_rate }
    }

    /// Ends a cycle with the poll's outcome, at time `now`: of the records
    /// polled, the messages with an identifier not seen in this epoch are
    /// delivered and recorded; the guard is released; and the seen
    /// identifiers are cleared when the cleanup interval has passed.
    pub fn finish_cycle(&mut self, outcome: Result<Vec<NtfyMessage>, PollError>, policy: &NotificationPolicy, now: u64) -> (r: CycleReport)
        ensures
            !final(self).polling,
            outcome is Err ==> r.deliveries@.len() == 0 && r.badge is None,
            outcome matches Ok(records) ==> reports(r, admitted(old(self).seen@, message_events(records@)).0, *policy),
            cleanup_due(old(self).last_cleanup, now) ==> {
                &&& final(self).seen@ == Set::<Seq<char>>::empty()
                &&& final(self).last_cleanup == now
            },
            !cleanup_due(old(self).last_cleanup, now) ==> {
                &&& final(self).last_cleanup == old(self).last_cleanup
                &&& outcome is Err ==> final(self).seen@ == old(self).seen@
                &&& outcome matches Ok(records) ==> final(self).seen@ == admitted(
                    old(self).seen@,
                    message_events(records@),
                ).1
            },
    {
        let mut deliveries: Vec<Delivery> = Vec::new();
        let ghost start = self.seen@;
        match outcome {
            Ok(records) => {
                let ghost msgs = message_events(records@);
                let fresh = self.seen.admit_batch(retain_message_events(records));
                let ghost d = fresh@;
                assert(d == admitted(start, msgs).0);
                for m in it: fresh.into_iter()
                    invariant
                        it.seq() == d,
                        deliveries@.len() == it.index(),
                        forall|i: int| 0 <= i < it.index() ==> {
                            let x = #[trigger] deliveries@[i];
                            &&& x.message == d[i]
                            &&& x.notification.subtitle is Some
                            &&& presents(x.notification, d[i], *policy, x.notification.subtitle->0@)
                            &&& is_arrival_text(x.notification.subtitle->0@, d[i].time)
                        },
                {
                    let notification = notification_for(&m, policy);
                    deliveries.push(Delivery { message: m, notification });
                }
            },
            Err(_) => {},
        }
        self.polling = false;
        if now >= self.last_cleanup && now - self.last_cleanup > CLEANUP_INTERVAL_SECS {
            self.seen.clear();
            self.last_cleanup = now;
        }
        let n = deliveries.len();
        let badge = if n > 0 { Some(n as u64) } else { None };
        CycleReport { deliveries, badge }
    }
}

} // verus!
