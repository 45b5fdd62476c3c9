//! The SkyCofl login helper: which socket link to open, how to read the
//! messages the socket sends until a login link or a verdict turns up, and
//! the report printed at the end.
use vstd::prelude::*;
use crate::text::{chars_of, string_of, trim, trim_chars};

verus! {

/// Where the socket link comes from.
#[derive(Clone, Debug)]
pub enum LinkSource {
    /// The link given on the command line, trimmed.
    Explicit(String),
    /// The account's `SAF_COFL_SOCKET_<ACCOUNT>` link.
    AccountEnv(String),
    /// The default socket, with the shared session.
    Default(String),
    /// No link and no session: nothing to open.
    MissingSession,
}

/// The link to open: a non-blank explicit link first, then a non-blank
/// account link from the environment, then the default socket when the
/// shared session `session` is not blank.
/// `o` is given and holds more than whitespace.
pub open spec fn nonblank(o: Option<Seq<char>>) -> bool {
    match o {
        Some(v) => trim(v).len() > 0,
        None => false,
    }
}

pub open spec fn opt_view(o: Option<&str>) -> Option<Seq<char>> {
    match o {
        Some(v) => Some(v@),
        None => None,
    }
}

/// `r` is the source that `socket_link_source` picks.
pub open spec fn picked_source(r: LinkSource, explicit: Option<Seq<char>>, account_env: Option<Seq<char>>, session: Seq<char>) -> bool {
    if nonblank(explicit) {
        r matches LinkSource::Explicit(l) && l@ == trim(explicit->0)
    } else if nonblank(account_env) {
        r matches LinkSource::AccountEnv(l) && l@ == account_env->0
    } else if trim(session).len() > 0 {
        r matches LinkSource::Default(s) && s@ == trim(session)
    } else {
        r is MissingSession
    }
}

pub fn socket_link_source(explicit: Option<&str>, account_env: Option<&str>, session: &str) -> (r: LinkSource)
    ensures
        picked_source(r, opt_view(explicit), opt_view(account_env), session@),
{
    if let Some(e) = explicit {
        let t = trim_chars(&chars_of(e));
        if t.len() > 0 {
            return LinkSource::Explicit(string_of(&t));
        }
    }
    if let Some(a) = account_env {
        let t = trim_chars(&chars_of(a));
        if t.len() > 0 {
            return LinkSource::AccountEnv(string_of(&chars_of(a)));
        }
    }
    let s = trim_chars(&chars_of(session));
    if s.len() > 0 {
        LinkSource::Default(string_of(&s))
    } else {
        LinkSource::MissingSession
    }
}

/// The session to combine with a socket link: none when the link already
/// carries one (`link_has_session`), else the configured session.
pub fn account_socket_session_source<'a>(link_has_session: bool, configured_session: &'a str) -> (r: &'a str)
    ensures
        link_has_session ==> r@ == ""@,
        !link_has_session ==> r@ == configured_session@,
{
    if link_has_session {
        ""
    } else {
        configured_session
    }
}

/// What one message of the socket says that the helper cares about.
#[derive(Clone, Debug)]
pub struct AuthEnvelope {
    /// Login links the message offers.
    pub auth_links: Vec<String>,
    /// The message asks to recover settings of a logged-out session.
    pub logged_out_recovery: bool,
    /// The message reports the account's subscription tier.
    pub tier_update: bool,
}

/// What the helper does after a message.
#[derive(Clone, Debug)]
pub enum AuthStep {
    /// A login link arrived: report it and stop.
    ReportLinks(Vec<String>),
    /// Keep reading; ask for the settings first when `request_settings`.
    Continue { request_settings: bool },
}

/// What the helper has learnt so far.
#[derive(Clone, Copy, Debug, PartialEq, Eq, Structural)]
pub struct CoflAuthWatch {
    pub auth_required: bool,
    pub saw_account_tier: bool,
    pub requested_settings: bool,
}

/// How the helper ends when no login link arrived.
#[derive(Clone, Copy, Debug, PartialEq, Eq, Structural)]
pub enum AuthOutcome {
    /// The session already looks authorised.
    AlreadyReady,
    /// No link before the timeout; whether login was found to be needed.
    LinkMissing { auth_required: bool },
}

impl CoflAuthWatch {
    pub fn new() -> (r: Self)
        ensures
            !r.auth_required && !r.saw_account_tier && !r.requested_settings,
    {
        CoflAuthWatch { auth_required: false, saw_account_tier: false, requested_settings: false }
    }

    /// Reads one message.  A message with login links ends the watch;
    /// otherwise the flags gather what it says, and the settings are asked
    /// for once, after the first message.
    pub fn step(&mut self, envelope: AuthEnvelope) -> (r: AuthStep)
        ensures
            envelope.auth_links@.len() > 0 ==> (r matches AuthStep::ReportLinks(l) && l@
                == envelope.auth_links@ && *final(self) == *old(self)),
            envelope.auth_links@.len() == 0 ==> {
                &&& final(self).auth_required == (old(self).auth_required || envelope.logged_out_recovery)
                &&& final(self).saw_account_tier == (old(self).saw_account_tier || envelope.tier_update)
                &&& final(self).requested_settings
                &&& (r matches AuthStep::Continue { request_settings } && request_settings
                    == !old(self).requested_settings)
            },
    {
        if envelope.auth_links.len() > 0 {
            return AuthStep::ReportLinks(envelope.auth_links);
        }
        self.auth_required = self.auth_required || envelope.logged_out_recovery;
        self.saw_account_tier = self.saw_account_tier || envelope.tier_update;
        let request_settings = !self.requested_settings;
        self.requested_settings = true;
        AuthStep::Continue { request_settings }
    }

    /// The verdict once the messages stop or time runs out.
    pub fn finish(&self) -> (r: AuthOutcome)
        ensures
            r == (if self.saw_account_tier && !self.auth_required {
                AuthOutcome::AlreadyReady
            } else {
                AuthOutcome::LinkMissing { auth_required: self.auth_required }
            }),
    {
        if self.saw_account_tier && !self.auth_required {
            AuthOutcome::AlreadyReady
        } else {
            AuthOutcome::LinkMissing { auth_required: self.auth_required }
        }
    }
}

/// The report that the helper prints.
#[derive(Clone, Debug)]
pub struct CoflAuthLinkReport {
    pub kind: String,
    pub account: String,
    pub link: Option<String>,
    pub links: Vec<String>,
    pub auth_required: bool,
    pub session_persisted: bool,
    pub socket_link: String,
    pub message: String,
}

/// The report for a login link that arrived: the first link is the one to
/// open.
pub fn link_report(account: &str, links: Vec<String>, session_persisted: bool, socket_link: &str) -> (r: CoflAuthLinkReport)
    requires
        links@.len() > 0,
    ensures
        r.kind@ == "skyCoflAuthLink"@,
        r.account@ == account@,
        r.link matches Some(l) && l@ == links@[0]@,
        r.links@ == links@,
        r.auth_required,
        r.session_persisted == session_persisted,
        r.socket_link@ == socket_link@,
        r.message@ == "Open the link, log in with Google, then keep this session value in config.json5."@,
{
    let first = string_of(&chars_of(links[0].as_str()));
    CoflAuthLinkReport {
        kind: "skyCoflAuthLink".to_owned(),
        account: account.to_owned(),
        link: Some(first),
        links,
        auth_required: true,
        session_persisted,
        socket_link: socket_link.to_owned(),
        message: "Open the link, log in with Google, then keep this session value in config.json5.".to_owned(),
    }
}

/// The report for a watch that ended without a login link.
pub fn outcome_report(account: &str, outcome: AuthOutcome, session_persisted: bool, socket_link: &str) -> (r: CoflAuthLinkReport)
    ensures
        r.account@ == account@,
        r.link is None,
        r.links@.len() == 0,
        r.session_persisted == session_persisted,
        r.socket_link@ == socket_link@,
        outcome is AlreadyReady ==> r.kind@ == "skyCoflAuthAlreadyReady"@ && !r.auth_required
            && r.message@ == "SkyCofl did not send a login link; this session already looks authorized."@,
        outcome matches AuthOutcome::LinkMissing { auth_required } ==> r.kind@
            == "skyCoflAuthLinkMissing"@ && r.auth_required == auth_required && r.message@
            == "SkyCofl did not send an authmod link before the timeout."@,
{
    match outcome {
        AuthOutcome::AlreadyReady => CoflAuthLinkReport {
            kind: "skyCoflAuthAlreadyReady".to_owned(),
            account: account.to_owned(),
            link: None,
            links: Vec::new(),
            auth_required: false,
            session_persisted,
            socket_link: socket_link.to_owned(),
            message: "SkyCofl did not send a login link; this session already looks authorized.".to_owned(),
        },
        AuthOutcome::LinkMissing { auth_required } => CoflAuthLinkReport {
            kind: "skyCoflAuthLinkMissing".to_owned(),
            account: account.to_owned(),
            link: None,
            links: Vec::new(),
            auth_required,
            session_persisted,
            socket_link: socket_link.to_owned(),
            message: "SkyCofl did not send an authmod link before the timeout.".to_owned(),
        },
    }
}

} // verus!
