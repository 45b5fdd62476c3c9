//! Watching Cofl sockets that open but stay silent: after the second
//! silent open of a link the client falls back to the default socket and
//! the link's region is avoided for a while.  Times are milliseconds of a
//! monotonic clock.
use vstd::prelude::*;
use crate::string_map::StringMap;
use crate::env_vars::{EnvVars, account_env_key, env_key};
use crate::text::{
    chars_of, concat_chars, contains, decimal, decimal_chars, starts_with, str_equal, string_of, trim,
    trim_chars,
};
use crate::scan::matches_at;

verus! {

/// The host that `url::Url::parse` and `Url::host_str` give for `link`.
pub uninterp spec fn url_host_of(link: Seq<char>) -> Option<Seq<char>>;

/// The port that `url::Url::parse` and `Url::port` give for `link`.
pub uninterp spec fn url_port_of(link: Seq<char>) -> Option<u16>;

/// Calls `url::Url::parse` on `link` and, when it parses, `host_str` of the
/// URL: the host as written in the URL (an IPv6 address in brackets), or
/// `None` when the link does not parse or has no host.  The contract only
/// names the result.
#[verifier::external_body]
fn url_host(link: &str) -> (r: Option<String>)
    ensures
        r matches Some(h) ==> url_host_of(link@) == Some(h@),
        r is None ==> url_host_of(link@) is None,
{
    url::Url::parse(link).ok().and_then(|u| u.host_str().map(|h| h.to_string()))
}

/// Calls `url::Url::parse` on `link` and, when it parses, `port` of the
/// URL: an explicit port that is not the scheme's default, else `None`.
/// The contract only names the result.
#[verifier::external_body]
fn url_port(link: &str) -> (r: Option<u16>)
    ensures
        r == url_port_of(link@),
{
    url::Url::parse(link).ok().and_then(|u| u.port())
}

/// The query of `link` as `url::Url::parse` and `Url::query_pairs` give it:
/// the `key=value` pairs in order, percent-decoded; `None` when the link
/// does not parse.
pub uninterp spec fn url_query_of(link: Seq<char>) -> Option<Seq<(Seq<char>, Seq<char>)>>;

/// Calls `url::Url::parse` on `link` and, when it parses, collects
/// `query_pairs` as owned strings.  The contract only names the result.
#[verifier::external_body]
fn url_query_pairs(link: &str) -> (r: Option<Vec<(String, String)>>)
    ensures
        match url_query_of(link@) {
            Some(ps) => r matches Some(v) && v@.map_values(|p: (String, String)| (p.0@, p.1@)) == ps,
            None => r is None,
        },
{
    url::Url::parse(link).ok().map(|u| u.query_pairs().into_owned().collect())
}

/// Query pairs that include an `SId` with more than whitespace.
pub open spec fn has_session_param(ps: Seq<(Seq<char>, Seq<char>)>) -> bool {
    exists|i: int| 0 <= i < ps.len() && (#[trigger] ps[i]).0 == "SId"@ && trim(ps[i].1).len() > 0
}

/// A socket link that carries its own session id: the trimmed link parses
/// as a URL whose query has an `SId` with a value.
pub open spec fn link_carries_session(link: Seq<char>) -> bool {
    match url_query_of(trim(link)) {
        Some(ps) => has_session_param(ps),
        None => false,
    }
}

pub fn link_has_session_id(link: &str) -> (r: bool)
    ensures
        r == link_carries_session(link@),
{
    let t = string_of(&trim_chars(&chars_of(link)));
    let pairs = match url_query_pairs(t.as_str()) {
        Some(p) => p,
        None => return false,
    };
    let ghost ps = pairs@.map_values(|p: (String, String)| (p.0@, p.1@));
    let mut i: usize = 0;
    while i < pairs.len()
        invariant
            i <= pairs.len(),
            ps == pairs@.map_values(|p: (String, String)| (p.0@, p.1@)),
            url_query_of(trim(link@)) == Some(ps),
            forall|j: int| 0 <= j < i ==> !((#[trigger] ps[j]).0 == "SId"@ && trim(ps[j].1).len() > 0),
        decreases pairs.len() - i,
    {
        assert(ps[i as int] == (pairs@[i as int].0@, pairs@[i as int].1@));
        if str_equal(pairs[i].0.as_str(), "SId") && trim_chars(&chars_of(pairs[i].1.as_str())).len() > 0 {
            assert(ps[i as int].0 == "SId"@ && trim(ps[i as int].1).len() > 0);
            assert(has_session_param(ps));
            return true;
        }
        i = i + 1;
    }
    false
}

/// The socket links of `accounts` (each account's `SAF_COFL_SOCKET_<IGN>`)
/// that carry a session id, each as written and trimmed, account by account.
pub open spec fn session_links(env: EnvVars, accounts: Seq<Seq<char>>) -> Seq<Seq<char>>
    decreases accounts.len(),
{
    if accounts.len() == 0 {
        seq![]
    } else {
        let rest = session_links(env, accounts.drop_last());
        match env.lookup(env_key("SAF_COFL_SOCKET"@, accounts.last())) {
            Some(l) => if link_carries_session(l) {
                rest + seq![l, trim(l)]
            } else {
                rest
            },
            None => rest,
        }
    }
}

pub fn links_with_session(env: &EnvVars, accounts: &Vec<String>) -> (r: Vec<String>)
    ensures
        r@.map_values(|s: String| s@) == session_links(*env, accounts@.map_values(|s: String| s@)),
{
    let ghost av = accounts@.map_values(|s: String| s@);
    let mut links: Vec<String> = Vec::new();
    let mut i: usize = 0;
    while i < accounts.len()
        invariant
            i <= accounts.len(),
            av == accounts@.map_values(|s: String| s@),
            links@.map_values(|s: String| s@) == session_links(*env, av.take(i as int)),
        decreases accounts.len() - i,
    {
        assert(av.take(i + 1).drop_last() =~= av.take(i as int));
        assert(av.take(i + 1).last() == accounts@[i as int]@);
        let key = account_env_key("SAF_COFL_SOCKET", accounts[i].as_str());
        let ghost before = links@.map_values(|s: String| s@);
        match env.get(key.as_str()) {
            Some(link) => {
                if link_has_session_id(link.as_str()) {
                    let t = string_of(&trim_chars(&chars_of(link.as_str())));
                    links.push(link);
                    links.push(t);
                    assert(links@.map_values(|s: String| s@) =~= before + seq![
                        links@[links.len() - 2]@,
                        trim(links@[links.len() - 2]@),
                    ]);
                }
            },
            None => {},
        }
        i = i + 1;
    }
    assert(av.take(accounts.len() as int) =~= av);
    links
}

/// The host a socket link connects to, as the region backoff keys it: the
/// URL's host (bracketed when it holds a colon and is not yet bracketed),
/// followed by `:port` when the URL names a port.
pub open spec fn socket_host(link: Seq<char>) -> Option<Seq<char>> {
    match url_host_of(link) {
        None => None,
        Some(h) => {
            let host = if contains(h, ":"@) && !starts_with(h, "["@) {
                "["@ + h + "]"@
            } else {
                h
            };
            match url_port_of(link) {
                Some(p) => Some(host + ":"@ + decimal(p as nat)),
                None => Some(host),
            }
        },
    }
}

pub fn cofl_socket_host(link: &str) -> (r: Option<String>)
    ensures
        r matches Some(h) ==> socket_host(link@) == Some(h@),
        r is None ==> socket_host(link@) is None,
{
    let h = match url_host(link) {
        Some(h) => h,
        None => {
            return None;
        },
    };
    let hc = chars_of(h.as_str());
    let colon = chars_of(":");
    let open = chars_of("[");
    let bracketed = crate::text::contains_chars(&hc, &colon) && !matches_at(&hc, &open, 0);
    let host = if bracketed {
        let with_open = concat_chars(&open, &hc);
        concat_chars(&with_open, &chars_of("]"))
    } else {
        hc
    };
    match url_port(link) {
        Some(p) => {
            let with_colon = concat_chars(&host, &colon);
            let digits = decimal_chars(p as u64);
            Some(string_of(&concat_chars(&with_colon, &digits)))
        },
        None => Some(string_of(&host)),
    }
}

/// The default socket's host, which is never backed off.
pub open spec fn default_socket_host() -> Seq<char> {
    "sky.coflnet.com"@
}

/// Silent opens per link and backed-off regions.
#[derive(Debug)]
pub struct CoflSilentOpenWatchdog {
    silent_open_counts: StringMap<u32>,
    region_backoff_until: StringMap<u64>,
}

impl CoflSilentOpenWatchdog {
    /// How many silent opens of `link` were counted since it last spoke.
    pub closed spec fn count(&self, link: Seq<char>) -> nat {
        match self.silent_open_counts.get(link) {
            Some(n) => n as nat,
            None => 0,
        }
    }

    /// Until when the region `host` is avoided.
    pub closed spec fn backoff_until(&self, host: Seq<char>) -> Option<u64> {
        self.region_backoff_until.get(host)
    }

    pub closed spec fn wf(&self) -> bool {
        self.silent_open_counts.wf() && self.region_backoff_until.wf()
    }

    pub fn new() -> (r: Self)
        ensures
            r.wf(),
            forall|l: Seq<char>| #[trigger] r.count(l) == 0,
            forall|h: Seq<char>| #[trigger] r.backoff_until(h) is None,
    {
        CoflSilentOpenWatchdog { silent_open_counts: StringMap::new(), region_backoff_until: StringMap::new() }
    }

    /// Counts a silent open of `link` and picks the link to retry with:
    /// from the second silent open on, the default link, with the link's
    /// region avoided for `region_backoff` from `now`.
    pub fn retry_link_after_silent_open(&mut self, link: &str, default_link: &str, now: u64, region_backoff: u64) -> (r: String)
        requires
            old(self).wf(),
            old(self).count(link@) < u32::MAX,
            now + region_backoff <= u64::MAX,
        ensures
            final(self).wf(),
            final(self).count(link@) == old(self).count(link@) + 1,
            forall|l: Seq<char>| l != link@ ==> #[trigger] final(self).count(l) == old(self).count(l),
            final(self).count(link@) >= 2 ==> r@ == default_link@,
            final(self).count(link@) < 2 ==> r@ == link@,
            final(self).count(link@) >= 2 ==> backed_off(*old(self), *final(self), link@, (now + region_backoff) as u64),
            final(self).count(link@) < 2 ==> forall|h: Seq<char>| #[trigger] final(self).backoff_until(h) == old(self).backoff_until(h),
    {
        let current: u32 = match self.silent_open_counts.lookup(link) {
            Some(n) => *n,
            None => 0,
        };
        let next = current + 1;
        self.silent_open_counts.set(link, next);
        if next >= 2 {
            self.backoff_region(link, now + region_backoff);
            string_of(&chars_of(default_link))
        } else {
            string_of(&chars_of(link))
        }
    }

    /// Forgets the silent opens of `link` once it spoke.
    pub fn clear_count(&mut self, link: &str)
        requires
            old(self).wf(),
        ensures
            final(self).wf(),
            final(self).count(link@) == 0,
            forall|l: Seq<char>| l != link@ ==> #[trigger] final(self).count(l) == old(self).count(l),
            forall|h: Seq<char>| #[trigger] final(self).backoff_until(h) == old(self).backoff_until(h),
    {
        self.silent_open_counts.remove(link);
    }

    /// Whether the region of `link` is still avoided at `now`.
    pub fn is_region_backed_off(&self, link: &str, now: u64) -> (r: bool)
        requires
            self.wf(),
        ensures
            r == (socket_host(link@) matches Some(h) && self.backoff_until(h) matches Some(until) && until > now),
    {
        match cofl_socket_host(link) {
            Some(host) => match self.region_backoff_until.lookup(host.as_str()) {
                Some(until) => *until > now,
                None => false,
            },
            None => false,
        }
    }

    /// Avoids the region of `link` until `until`; the default socket's
    /// region is never avoided.
    pub fn backoff_region(&mut self, link: &str, until: u64)
        requires
            old(self).wf(),
        ensures
            backed_off(*old(self), *final(self), link@, until),
            forall|l: Seq<char>| #[trigger] final(self).count(l) == old(self).count(l),
    {
        let host = match cofl_socket_host(link) {
            Some(h) => h,
            None => {
                return;
            },
        };
        if str_equal(host.as_str(), "sky.coflnet.com") {
            return;
        }
        self.region_backoff_until.set(host.as_str(), until);
    }
}

/// The regions of `after` are those of `before` with the region of `link`
/// avoided until `until`, unless the link has no host or it is the
/// default socket's.
pub open spec fn backed_off(before: CoflSilentOpenWatchdog, after: CoflSilentOpenWatchdog, link: Seq<char>, until: u64) -> bool {
    &&& after.wf()
    &&& match socket_host(link) {
        Some(h) if h != default_socket_host() => {
            &&& after.backoff_until(h) == Some(until)
            &&& forall|o: Seq<char>| o != h ==> #[trigger] after.backoff_until(o) == before.backoff_until(o)
        },
        _ => forall|o: Seq<char>| #[trigger] after.backoff_until(o) == before.backoff_until(o),
    }
}

/// The default socket's region is never avoided: backing off any link
/// leaves the default host's entry as it was.
pub proof fn lemma_default_region_never_backed_off(
    before: CoflSilentOpenWatchdog,
    after: CoflSilentOpenWatchdog,
    link: Seq<char>,
    until: u64,
)
    requires
        backed_off(before, after, link, until),
    ensures
        after.backoff_until(default_socket_host()) == before.backoff_until(default_socket_host()),
{
}
} // verus!
