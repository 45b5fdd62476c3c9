//! Generating and persisting the shared Cofl session in `config.json5`.
use vstd::prelude::*;
use crate::env_vars::{EnvVars, needs_generated_session, should_generate_cofl_session};
use crate::json5_edit::{
    json_plain_char, lemma_plain_string_literal, patch_string_value, patched_string_value, splice,
    string_value_span,
};

verus! {

/// `raw` with its `session` string replaced by `session` (see
/// `patched_string_value`).
pub fn patch_config_session(raw: &str, session: &str) -> (r: Option<String>)
    ensures
        r matches Some(t) ==> patched_string_value(raw@, "session"@, session@) == Some(t@),
        r is None ==> patched_string_value(raw@, "session"@, session@) is None,
{
    patch_string_value(raw, "session", session)
}

/// A lower-case hex digit.
pub open spec fn lower_hex(c: char) -> bool {
    ('0' <= c <= '9') || ('a' <= c <= 'f')
}

/// Where the hyphens of a hyphenated UUID stand.
pub open spec fn uuid_hyphen_at(i: int) -> bool {
    i == 8 || i == 13 || i == 18 || i == 23
}

/// A random (version 4) UUID in lower-case hyphenated form: hex digits in
/// groups of 8, 4, 4, 4 and 12 joined by hyphens, the version digit `4` at
/// index 14 and a variant digit among `8 9 a b` at index 19.
pub open spec fn is_v4_uuid(s: Seq<char>) -> bool {
    &&& s.len() == 36
    &&& forall|i: int| 0 <= i < 36 ==> if uuid_hyphen_at(i) {
        #[trigger] s[i] == '-'
    } else {
        lower_hex(s[i])
    }
    &&& s[14] == '4'
    &&& (s[19] == '8' || s[19] == '9' || s[19] == 'a' || s[19] == 'b')
}

/// Calls `uuid::Uuid::new_v4` and renders the id with `to_string`: a random
/// id whose version and variant bits `new_v4` sets, written by `Display` in
/// lower-case hyphenated form.
#[verifier::external_body]
fn new_session_id() -> (r: String)
    ensures
        is_v4_uuid(r@),
{
    uuid::Uuid::new_v4().to_string()
}

/// `config` is `raw` with its `session` string replaced by the fresh id
/// `session`, a v4 UUID, written as a double-quoted string.
pub open spec fn session_recorded(raw: Seq<char>, session: Seq<char>, config: Seq<char>) -> bool {
    &&& is_v4_uuid(session)
    &&& patched_string_value(raw, "session"@, session) == Some(config)
    &&& string_value_span(raw, "session"@) matches Some((a, b)) && config == splice(
        raw,
        a,
        b,
        seq!['"'] + session + seq!['"'],
    )
}

/// The characters of a UUID need no escaping in JSON.
pub proof fn lemma_uuid_is_plain_json(s: Seq<char>)
    requires
        is_v4_uuid(s),
    ensures
        forall|i: int| 0 <= i < s.len() ==> json_plain_char(#[trigger] s[i]),
{
    assert forall|i: int| 0 <= i < s.len() implies json_plain_char(#[trigger] s[i]) by {
        if uuid_hyphen_at(i) {
            assert(s[i] == '-');
        } else {
            assert(lower_hex(s[i]));
        }
    }
}

/// A freshly generated Cofl session and the configuration text that records it.
#[derive(Clone, Debug)]
pub struct GeneratedSession {
    pub session: String,
    pub config: String,
}

/// Draws a new random session id and writes it into the `session` string of
/// the configuration text `raw`.  `None` when `raw` has no `session` string
/// to hold it.
pub fn generate_cofl_session(raw: &str) -> (r: Option<GeneratedSession>)
    ensures
        r matches Some(g) ==> session_recorded(raw@, g.session@, g.config@),
        r is None <==> string_value_span(raw@, "session"@) is None,
{
    let session = new_session_id();
    proof {
        lemma_uuid_is_plain_json(session@);
        lemma_plain_string_literal(session@);
    }
    match patch_config_session(raw, session.as_str()) {
        Some(config) => Some(GeneratedSession { session, config }),
        None => None,
    }
}


/// Why a generated session could not be recorded.
#[derive(Clone, Copy, Debug, PartialEq, Eq, Structural)]
pub enum ConfigSessionError {
    /// The configuration text has no `session` string to hold the id.
    SessionFieldMissing,
}

impl ConfigSessionError {
    /// The operator message.
    pub fn message(&self) -> (r: &'static str)
        ensures
            r@ == "patching session in the configuration file: no `session` string value found"@,
    {
        "patching session in the configuration file: no `session` string value found"
    }
}

/// Makes sure a Cofl session exists before the runtime connects: when one is
/// needed (see `needs_generated_session`), draws a new id and records it in
/// the configuration text `raw`.  `Ok(None)` when none is needed;
/// `Err` when one is needed and `raw` has no `session` string.
pub fn ensure_cofl_session(
    session: &str,
    accounts: &Vec<String>,
    env: &EnvVars,
    links_with_session: &Vec<String>,
    raw: &str,
) -> (r: Result<Option<GeneratedSession>, ConfigSessionError>)
    ensures
        !needs_generated_session(session@, accounts@, *env, links_with_session@) ==> r == Ok::<
            Option<GeneratedSession>,
            ConfigSessionError,
        >(None),
        needs_generated_session(session@, accounts@, *env, links_with_session@) ==> {
            &&& (r is Err <==> string_value_span(raw@, "session"@) is None)
            &&& r !is Ok || r->Ok_0 is Some
            &&& r matches Ok(Some(g)) ==> session_recorded(raw@, g.session@, g.config@)
        },
{
    if !should_generate_cofl_session(session, accounts, env, links_with_session) {
        return Ok(None);
    }
    match generate_cofl_session(raw) {
        Some(g) => Ok(Some(g)),
        None => Err(ConfigSessionError::SessionFieldMissing),
    }
}


/// Before `run-live` connects Cofl: a build with the live Cofl client that
/// will connect makes sure a session exists (see `ensure_cofl_session`);
/// otherwise nothing happens.
pub fn prepare_cofl_session(
    live_cofl_built: bool,
    connect_cofl: bool,
    session: &str,
    accounts: &Vec<String>,
    env: &EnvVars,
    links_with_session: &Vec<String>,
    raw: &str,
) -> (r: Result<Option<GeneratedSession>, ConfigSessionError>)
    ensures
        !(live_cofl_built && connect_cofl) ==> r == Ok::<Option<GeneratedSession>, ConfigSessionError>(
            None,
        ),
        live_cofl_built && connect_cofl && !needs_generated_session(
            session@,
            accounts@,
            *env,
            links_with_session@,
        ) ==> r == Ok::<Option<GeneratedSession>, ConfigSessionError>(None),
        live_cofl_built && connect_cofl && needs_generated_session(
            session@,
            accounts@,
            *env,
            links_with_session@,
        ) ==> {
            &&& (r is Err <==> string_value_span(raw@, "session"@) is None)
            &&& r !is Ok || r->Ok_0 is Some
            &&& r matches Ok(Some(g)) ==> session_recorded(raw@, g.session@, g.config@)
        },
{
    if !live_cofl_built || !connect_cofl {
        return Ok(None);
    }
    ensure_cofl_session(session, accounts, env, links_with_session, raw)
}

} // verus!
