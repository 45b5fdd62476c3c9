//! The state of an account's Cofl websocket connection: when to try to
//! reconnect, what a silent socket leads to, when to switch links, and
//! when to ask for the account info or upload the first scoreboard.
//! Times are milliseconds of a monotonic clock.
use vstd::prelude::*;
use crate::cofl_watchdog::{backed_off, socket_host, CoflSilentOpenWatchdog};
use crate::text::{chars_of, concat_str, str_equal, string_of};

verus! {

/// The doubled delay, saturating, capped at `max`.
pub open spec fn doubled_delay(d: u64, max: u64) -> u64 {
    let doubled: int = if 2 * d > u64::MAX { u64::MAX as int } else { 2 * d };
    if doubled <= max { doubled as u64 } else { max }
}

/// When the next connection attempt may be made, and how long the one
/// after a further failure waits.
#[derive(Clone, Copy, Debug, PartialEq, Eq, Structural)]
pub struct ReconnectBackoff {
    pub min_delay: u64,
    pub max_delay: u64,
    /// The wait that the next failure schedules.
    pub next_delay: u64,
    /// No attempt before this time.
    pub next_attempt: Option<u64>,
    /// The operator's humanizer decides how the wait grows.
    pub humanized: bool,
}

impl ReconnectBackoff {
    pub fn new(min_delay: u64, max_delay: u64) -> (r: Self)
        ensures
            r == (ReconnectBackoff { min_delay, max_delay, next_delay: min_delay, next_attempt: None, humanized: false }),
    {
        ReconnectBackoff { min_delay, max_delay, next_delay: min_delay, next_attempt: None, humanized: false }
    }

    /// The backoff of a humanized client: its base wait (at least 1 ms) and
    /// its cap (at least the base).
    pub fn with_humanizer(base_ms: u64, cap_ms: u64) -> (r: Self)
        ensures
            r.min_delay == (if base_ms > 1 { base_ms } else { 1 }),
            r.max_delay == (if cap_ms > base_ms { cap_ms } else { base_ms }),
            r.next_delay == r.min_delay,
            r.next_attempt is None,
            r.humanized,
    {
        let min_delay = if base_ms > 1 { base_ms } else { 1 };
        let max_delay = if cap_ms > base_ms { cap_ms } else { base_ms };
        ReconnectBackoff { min_delay, max_delay, next_delay: min_delay, next_attempt: None, humanized: true }
    }

    /// Whether an attempt may be made at `now`.
    pub fn should_attempt(&self, now: u64) -> (r: bool)
        ensures
            r == (match self.next_attempt {
                Some(t) => now >= t,
                None => true,
            }),
    {
        match self.next_attempt {
            Some(t) => now >= t,
            None => true,
        }
    }

    /// A message arrived: the next failure waits the least again.
    pub fn record_success(&mut self)
        ensures
            *final(self) == (ReconnectBackoff { next_delay: old(self).min_delay, next_attempt: None, ..*old(self) }),
    {
        self.next_delay = self.min_delay;
        self.next_attempt = None;
    }

    /// A failure at `now`: the next attempt waits the scheduled delay, and
    /// the delay after grows (doubled, or as the humanizer says in
    /// `humanizer_next`, which is read only by a humanized backoff), never
    /// beyond the cap.
    pub fn record_failure(&mut self, now: u64, humanizer_next: u64)
        requires
            now + old(self).next_delay <= u64::MAX,
        ensures
            final(self).next_attempt == Some((now + old(self).next_delay) as u64),
            final(self).next_delay == (if old(self).humanized {
                if humanizer_next <= old(self).max_delay { humanizer_next } else { old(self).max_delay }
            } else {
                doubled_delay(old(self).next_delay, old(self).max_delay)
            }),
            final(self).min_delay == old(self).min_delay,
            final(self).max_delay == old(self).max_delay,
            final(self).humanized == old(self).humanized,
    {
        let scheduled = self.next_delay;
        self.next_attempt = Some(now + scheduled);
        let promoted = if self.humanized {
            humanizer_next
        } else {
            let doubled: u64 = if scheduled > u64::MAX / 2 {
                u64::MAX
            } else {
                scheduled * 2
            };
            if doubled <= self.max_delay {
                doubled
            } else {
                self.max_delay
            }
        };
        self.next_delay = if promoted <= self.max_delay {
            promoted
        } else {
            self.max_delay
        };
    }

    /// Puts the next attempt off by `delay` from `now` and resets the wait.
    pub fn record_deferred_attempt(&mut self, now: u64, delay: u64)
        requires
            now + delay <= u64::MAX,
        ensures
            *final(self) == (ReconnectBackoff {
                next_delay: old(self).min_delay,
                next_attempt: Some((now + delay) as u64),
                ..*old(self)
            }),
    {
        self.next_delay = self.min_delay;
        self.next_attempt = Some(now + delay);
    }
}

/// Repeated failures of a plain backoff never wait beyond the cap, and the
/// wait never shrinks while it is within the cap.
pub proof fn lemma_backoff_grows_to_cap(d: u64, max: u64)
    requires
        d <= max,
    ensures
        d <= doubled_delay(d, max) <= max,
{
}

/// An account's Cofl connection.
pub struct CoflConnectionState {
    /// The socket link in use.
    pub link: String,
    /// The default socket link to fall back on.
    pub default_link: String,
    /// A socket is open.
    pub connected: bool,
    pub connected_at: Option<u64>,
    pub last_message_at: Option<u64>,
    pub backoff: ReconnectBackoff,
    pub watchdog: CoflSilentOpenWatchdog,
}

/// A silent socket is given up once it has been open for `timeout`
/// without a message.
pub open spec fn silent_open_expired(s: CoflConnectionState, now: u64, timeout: u64) -> bool {
    &&& s.connected
    &&& s.last_message_at is None
    &&& s.connected_at matches Some(c) && now >= c && now - c >= timeout
}

impl CoflConnectionState {
    pub fn new(link: String, default_link: String, backoff: ReconnectBackoff) -> (r: Self)
        ensures
            r.link == link,
            r.default_link == default_link,
            !r.connected,
            r.connected_at is None,
            r.last_message_at is None,
            r.backoff == backoff,
            r.watchdog.wf(),
            forall|l: Seq<char>| #[trigger] r.watchdog.count(l) == 0,
            forall|h: Seq<char>| #[trigger] r.watchdog.backoff_until(h) is None,
    {
        CoflConnectionState {
            link,
            default_link,
            connected: false,
            connected_at: None,
            last_message_at: None,
            backoff,
            watchdog: CoflSilentOpenWatchdog::new(),
        }
    }

    /// A socket opened at `now`.
    pub fn record_connected(&mut self, now: u64)
        ensures
            final(self).connected,
            final(self).connected_at == Some(now),
            final(self).last_message_at is None,
            final(self).link == old(self).link,
            final(self).default_link == old(self).default_link,
            final(self).backoff == old(self).backoff,
            final(self).watchdog == old(self).watchdog,
    {
        self.connected = true;
        self.connected_at = Some(now);
        self.last_message_at = None;
    }

    /// A message arrived at `now`: the link is no longer silent.
    pub fn record_message(&mut self, now: u64)
        requires
            old(self).watchdog.wf(),
        ensures
            final(self).last_message_at == Some(now),
            final(self).watchdog.wf(),
            final(self).watchdog.count(old(self).link@) == 0,
            forall|l: Seq<char>| l != old(self).link@ ==> #[trigger] final(self).watchdog.count(l) == old(self).watchdog.count(l),
            forall|h: Seq<char>| #[trigger] final(self).watchdog.backoff_until(h) == old(self).watchdog.backoff_until(h),
            final(self).connected == old(self).connected,
            final(self).connected_at == old(self).connected_at,
            final(self).link == old(self).link,
            final(self).backoff == old(self).backoff,
    {
        self.last_message_at = Some(now);
        self.watchdog.clear_count(self.link.as_str());
    }

    /// The socket closed or failed at `now`: a failure for the backoff.
    pub fn disconnect(&mut self, now: u64, humanizer_next: u64)
        requires
            now + old(self).backoff.next_delay <= u64::MAX,
        ensures
            !final(self).connected,
            final(self).connected_at is None,
            final(self).last_message_at is None,
            final(self).backoff.next_attempt == Some((now + old(self).backoff.next_delay) as u64),
            final(self).link == old(self).link,
            final(self).watchdog == old(self).watchdog,
    {
        self.connected = false;
        self.connected_at = None;
        self.last_message_at = None;
        self.backoff.record_failure(now, humanizer_next);
    }

    /// Drops the socket and waits `delay` from `now` before the next attempt.
    pub fn defer_reconnect(&mut self, now: u64, delay: u64)
        requires
            now + delay <= u64::MAX,
        ensures
            !final(self).connected,
            final(self).connected_at is None,
            final(self).last_message_at is None,
            final(self).backoff == (ReconnectBackoff {
                next_delay: old(self).backoff.min_delay,
                next_attempt: Some((now + delay) as u64),
                ..old(self).backoff
            }),
            final(self).link == old(self).link,
            final(self).watchdog == old(self).watchdog,
    {
        self.connected = false;
        self.connected_at = None;
        self.last_message_at = None;
        self.backoff.record_deferred_attempt(now, delay);
    }

    /// Gives up a socket that stayed silent for `timeout`: the link to
    /// retry with (see `retry_link_after_silent_open`) becomes the link, and
    /// the next attempt waits a second.  `None`, with nothing changed, while
    /// the socket is closed, has spoken, or is younger than `timeout`.
    pub fn reconnect_silent_open(&mut self, now: u64, timeout: u64, region_backoff: u64) -> (r: Option<String>)
        requires
            old(self).watchdog.wf(),
            old(self).watchdog.count(old(self).link@) < u32::MAX,
            now + region_backoff <= u64::MAX,
            now + 1000 <= u64::MAX,
        ensures
            final(self).watchdog.wf(),
            !silent_open_expired(*old(self), now, timeout) ==> r is None && final(self).link == old(self).link
                && final(self).connected == old(self).connected && final(self).watchdog == old(self).watchdog
                && final(self).backoff == old(self).backoff,
            silent_open_expired(*old(self), now, timeout) ==> {
                &&& r matches Some(l) && l@ == final(self).link@
                &&& final(self).watchdog.count(old(self).link@) == old(self).watchdog.count(old(self).link@) + 1
                &&& (final(self).watchdog.count(old(self).link@) >= 2 ==> final(self).link@
                    == old(self).default_link@ && backed_off(old(self).watchdog, final(self).watchdog, old(self).link@, (now + region_backoff) as u64))
                &&& (final(self).watchdog.count(old(self).link@) < 2 ==> final(self).link@ == old(self).link@)
                &&& !final(self).connected
                &&& final(self).connected_at is None
                &&& final(self).last_message_at is None
                &&& final(self).backoff.next_attempt == Some((now + 1000) as u64)
                &&& final(self).backoff.next_delay == old(self).backoff.min_delay
            },
    {
        let expired = match self.connected_at {
            Some(c) => self.connected && self.last_message_at.is_none() && now >= c && now - c >= timeout,
            None => false,
        };
        if !expired {
            return None;
        }
        let retry = self.watchdog.retry_link_after_silent_open(
            self.link.as_str(),
            self.default_link.as_str(),
            now,
            region_backoff,
        );
        self.connected = false;
        self.connected_at = None;
        self.last_message_at = None;
        self.link = string_of(&chars_of(retry.as_str()));
        self.backoff.record_deferred_attempt(now, 1000);
        Some(retry)
    }
}

/// What a request to switch an account's socket link did.
#[derive(Clone, Copy, Debug, PartialEq, Eq, Structural)]
pub enum LinkSwitch {
    /// The new link's region is backed off: nothing changed.
    IgnoredBackedOffRegion,
    /// The humanizer's cooldown between server switches is running: nothing changed.
    DeferredByHumanizer,
    /// The link is in use and the socket reconnects in five seconds.
    Switched,
}

impl CoflConnectionState {
    /// Switches to `link` at `now`; `switch_allowed` is the humanizer's
    /// answer to the switch (always true without a humanizer).
    pub fn switch_link(&mut self, link: &str, now: u64, switch_allowed: bool) -> (r: LinkSwitch)
        requires
            old(self).watchdog.wf(),
            now + 5000 <= u64::MAX,
        ensures
            (socket_host(link@) matches Some(h) && old(self).watchdog.backoff_until(h) matches Some(until) && until > now)
                ==> r == LinkSwitch::IgnoredBackedOffRegion && final(self).link == old(self).link && final(self).backoff == old(self).backoff,
            r == LinkSwitch::DeferredByHumanizer ==> !switch_allowed && old(self).link@ != link@
                && final(self).link == old(self).link && final(self).backoff == old(self).backoff,
            r == LinkSwitch::Switched ==> final(self).link@ == link@ && !final(self).connected && final(self).backoff.next_attempt
                == Some((now + 5000) as u64),
            !(socket_host(link@) matches Some(h) && old(self).watchdog.backoff_until(h) matches Some(until) && until > now)
                ==> (r == LinkSwitch::Switched <==> (old(self).link@ == link@ || switch_allowed)),
            final(self).watchdog == old(self).watchdog,
    {
        if self.watchdog.is_region_backed_off(link, now) {
            return LinkSwitch::IgnoredBackedOffRegion;
        }
        if !str_equal(self.link.as_str(), link) {
            if !switch_allowed {
                return LinkSwitch::DeferredByHumanizer;
            }
            self.link = string_of(&chars_of(link));
        }
        self.defer_reconnect(now, 5000);
        LinkSwitch::Switched
    }
}

/// How long after a connection the account info may be asked for again.
pub const STARTUP_ACCOUNT_INFO_RETRY_INTERVAL_MS: u64 = 10_000;

/// A request for the account info: on which connection, and when.
#[derive(Clone, Copy, Debug, PartialEq, Eq, Structural)]
pub struct AccountInfoRequest {
    pub connected_at: u64,
    pub requested_at: u64,
}

/// Whether the account info was accepted, and when it was last asked for.
#[derive(Clone, Copy, Debug, PartialEq, Eq, Structural)]
pub struct StartupAccountInfoState {
    pub accepted: bool,
    pub requested: Option<AccountInfoRequest>,
}

/// The account info is due on the connection that started at
/// `connected_at`: it was not accepted, and not asked for on this
/// connection in the last ten seconds.
pub open spec fn account_info_due(s: StartupAccountInfoState, connected_at: u64, now: u64) -> bool {
    !s.accepted && match s.requested {
        None => true,
        Some(q) => q.connected_at != connected_at || (now >= q.requested_at && now - q.requested_at
            >= STARTUP_ACCOUNT_INFO_RETRY_INTERVAL_MS),
    }
}

impl StartupAccountInfoState {
    pub fn new() -> (r: Self)
        ensures
            !r.accepted && r.requested is None,
    {
        StartupAccountInfoState { accepted: false, requested: None }
    }

    pub fn request_due_at(&self, connected_at: u64, now: u64) -> (r: bool)
        ensures
            r == account_info_due(*self, connected_at, now),
    {
        if self.accepted {
            return false;
        }
        match self.requested {
            None => true,
            Some(q) => q.connected_at != connected_at || (now >= q.requested_at && now - q.requested_at
                >= STARTUP_ACCOUNT_INFO_RETRY_INTERVAL_MS),
        }
    }

    pub fn mark_requested_at(&mut self, connected_at: u64, requested_at: u64)
        ensures
            final(self).requested == Some(AccountInfoRequest { connected_at, requested_at }),
            final(self).accepted == old(self).accepted,
    {
        self.requested = Some(AccountInfoRequest { connected_at, requested_at });
    }

    pub fn mark_accepted(&mut self)
        ensures
            final(self).accepted,
            final(self).requested == old(self).requested,
    {
        self.accepted = true;
    }

    /// A new connection starts over.
    pub fn reset(&mut self)
        ensures
            !final(self).accepted && final(self).requested is None,
    {
        self.accepted = false;
        self.requested = None;
    }
}

/// Right after a request the account info is not asked for again on the
/// same connection for ten seconds, and is due again from then on until
/// it is accepted.
pub proof fn lemma_account_info_retry_interval(s: StartupAccountInfoState, c: u64, t: u64, later: u64)
    requires
        !s.accepted,
        later >= t,
    ensures
        account_info_due(StartupAccountInfoState { requested: Some(AccountInfoRequest { connected_at: c, requested_at: t }), ..s }, c, later) <==> later - t
            >= STARTUP_ACCOUNT_INFO_RETRY_INTERVAL_MS,
        !account_info_due(StartupAccountInfoState { accepted: true, ..s }, c, later),
{
}

/// How long after a connection the first scoreboard is uploaded.
pub const INITIAL_SCOREBOARD_UPLOAD_DELAY_MS: u64 = 5_500;

/// Whether to upload the first scoreboard of the connection that started
/// at `connected_at`: the scoreboard is worth uploading, the connection is
/// old enough, and it was not uploaded on this connection yet.
pub fn initial_scoreboard_upload_due(worth_uploading: bool, connected_at: u64, now: u64, uploaded_for: Option<u64>) -> (r: bool)
    ensures
        r == (worth_uploading && now >= connected_at && now - connected_at >= INITIAL_SCOREBOARD_UPLOAD_DELAY_MS
            && uploaded_for != Some(connected_at)),
{
    worth_uploading && now >= connected_at && now - connected_at >= INITIAL_SCOREBOARD_UPLOAD_DELAY_MS
        && uploaded_for != Some(connected_at)
}

/// The refusal of a command for another account than the socket's.
pub fn command_account_mismatch(configured: &str, requested: &str) -> (r: Option<String>)
    ensures
        configured@ == requested@ ==> r is None,
        configured@ != requested@ ==> (r matches Some(m) && m@ == "cofl websocket is configured for "@
            + configured@ + ", not "@ + requested@),
{
    if str_equal(configured, requested) {
        return None;
    }
    let a = concat_str("cofl websocket is configured for ", configured);
    let b = concat_str(a.as_str(), ", not ");
    Some(concat_str(b.as_str(), requested))
}

} // verus!
