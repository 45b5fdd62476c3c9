//! Process environment as the runtime reads it, the per-account variable
//! names, and the decisions taken from them: whether a Cofl session must be
//! generated, and which Discord user ids are allowed.
use vstd::prelude::*;
use crate::blacklist_rules::parse_u64_chars;
use crate::text::{
    split_char, split_on_char,
    ascii_upper, chars_equal, chars_of, decimal, decimal_chars, eq_ignore_ascii_case,
    eq_ignore_case, is_alnum, is_ascii_alnum, parse_u64, str_equal, string_of, trim, trim_chars,
};

verus! {

/// A snapshot of environment variables: `(name, value)` pairs.
#[derive(Clone, Debug)]
pub struct EnvVars {
    pub vars: Vec<(String, String)>,
}

pub open spec fn lookup_in(vars: Seq<(String, String)>, name: Seq<char>) -> Option<Seq<char>>
    decreases vars.len(),
{
    if vars.len() == 0 {
        None
    } else if vars[0].0@ == name {
        Some(vars[0].1@)
    } else {
        lookup_in(vars.drop_first(), name)
    }
}

impl EnvVars {
    /// Value of variable `name` (the first entry with that name).
    pub open spec fn lookup(&self, name: Seq<char>) -> Option<Seq<char>> {
        lookup_in(self.vars@, name)
    }

    /// Variable `name` is set to something other than whitespace.
    pub open spec fn non_empty(&self, name: Seq<char>) -> bool {
        self.lookup(name) matches Some(v) && trim(v).len() > 0
    }

    /// Variable `name` is `1` or `true` (any case), ignoring surrounding whitespace.
    pub open spec fn truthy(&self, name: Seq<char>) -> bool {
        self.lookup(name) matches Some(v) && (trim(v) == "1"@ || eq_ignore_case(trim(v), "true"@))
    }

    /// Variable `name`, trimmed, when it holds something other than whitespace.
    pub open spec fn trimmed(&self, name: Seq<char>) -> Option<Seq<char>> {
        match self.lookup(name) {
            Some(v) => if trim(v).len() > 0 {
                Some(trim(v))
            } else {
                None
            },
            None => None,
        }
    }

    pub fn get(&self, name: &str) -> (r: Option<String>)
        ensures
            r matches Some(v) ==> self.lookup(name@) == Some(v@),
            r is None ==> self.lookup(name@) is None,
    {
        let mut i: usize = 0;
        assert(self.vars@.skip(0) =~= self.vars@);
        while i < self.vars.len()
            invariant
                i <= self.vars.len(),
                self.lookup(name@) == lookup_in(self.vars@.skip(i as int), name@),
            decreases self.vars.len() - i,
        {
            assert(self.vars@.skip(i as int).drop_first() =~= self.vars@.skip(i + 1));
            if str_equal(self.vars[i].0.as_str(), name) {
                return Some(self.vars[i].1.clone());
            }
            i = i + 1;
        }
        None
    }

    pub fn non_empty_env(&self, name: &str) -> (r: bool)
        ensures
            r == self.non_empty(name@),
    {
        match self.get(name) {
            Some(v) => {
                let c = chars_of(v.as_str());
                let t = trim_chars(&c);
                t.len() > 0
            },
            None => false,
        }
    }

    pub fn truthy_env(&self, name: &str) -> (r: bool)
        ensures
            r == self.truthy(name@),
    {
        match self.get(name) {
            Some(v) => {
                let c = chars_of(v.as_str());
                let t = trim_chars(&c);
                let one = chars_of("1");
                let tru = chars_of("true");
                chars_equal(&t, &one) || eq_ignore_ascii_case(&t, &tru)
            },
            None => false,
        }
    }

    pub fn trimmed_env(&self, name: &str) -> (r: Option<Vec<char>>)
        ensures
            r matches Some(v) ==> self.trimmed(name@) == Some(v@),
            r is None ==> self.trimmed(name@) is None,
    {
        match self.get(name) {
            Some(v) => {
                let c = chars_of(v.as_str());
                let t = trim_chars(&c);
                if t.len() > 0 {
                    Some(t)
                } else {
                    None
                }
            },
            None => None,
        }
    }
}

pub open spec fn env_key_char(c: char) -> char {
    if is_ascii_alnum(c) {
        ascii_upper(c)
    } else {
        '_'
    }
}

/// Name of the per-account variable: `PREFIX_ACCOUNT`, with the account's
/// letters upper-cased and every other character turned into `_`.
pub open spec fn env_key(prefix: Seq<char>, account: Seq<char>) -> Seq<char> {
    prefix + seq!['_'] + account.map_values(|c: char| env_key_char(c))
}

pub fn account_env_key(prefix: &str, account: &str) -> (r: String)
    ensures
        r@ == env_key(prefix@, account@),
{
    let a = chars_of(account);
    let mut out = chars_of(prefix);
    out.push('_');
    let ghost head = out@;
    let mut i: usize = 0;
    while i < a.len()
        invariant
            i <= a.len(),
            head == prefix@ + seq!['_'],
            out@ == head + a@.take(i as int).map_values(|c: char| env_key_char(c)),
        decreases a.len() - i,
    {
        let c = a[i];
        let k = if is_alnum(c) {
            crate::text::to_upper(c)
        } else {
            '_'
        };
        out.push(k);
        assert(a@.take(i + 1).map_values(|c: char| env_key_char(c)) =~= a@.take(i as int).map_values(
            |c: char| env_key_char(c),
        ).push(env_key_char(c)));
        i = i + 1;
    }
    assert(a@.take(a.len() as int) =~= a@);
    string_of(&out)
}

/// The Cofl socket links, as written in the environment, that carry their
/// own session id (an `SId` query value); the socket link parser of the Cofl
/// client decides which ones do.
pub open spec fn has_session(links_with_session: Seq<String>, link: Seq<char>) -> bool {
    exists|i: int| 0 <= i < links_with_session.len() && links_with_session[i]@ == link
}

pub fn link_has_session(links_with_session: &Vec<String>, link: &Vec<char>) -> (r: bool)
    ensures
        r == has_session(links_with_session@, link@),
{
    let mut i: usize = 0;
    while i < links_with_session.len()
        invariant
            i <= links_with_session.len(),
            forall|k: int| 0 <= k < i ==> links_with_session@[k]@ != link@,
        decreases links_with_session.len() - i,
    {
        let c = chars_of(links_with_session[i].as_str());
        if chars_equal(&c, link) {
            return true;
        }
        i = i + 1;
    }
    false
}

/// An account still needs the shared Cofl session: its socket variable is
/// unset or blank, or its link carries no session of its own.
pub open spec fn account_needs_session(env: EnvVars, links: Seq<String>, account: Seq<char>) -> bool {
    match env.trimmed(env_key("SAF_COFL_SOCKET"@, account)) {
        None => true,
        Some(link) => !has_session(links, link),
    }
}

/// A Cofl session has to be generated: none is configured (in the config or
/// in `SAF_COFL_SESSION`), there are accounts, and one of them lacks socket
/// auth of its own.
pub open spec fn needs_generated_session(
    session: Seq<char>,
    accounts: Seq<String>,
    env: EnvVars,
    links: Seq<String>,
) -> bool {
    &&& trim(session).len() == 0
    &&& !env.non_empty("SAF_COFL_SESSION"@)
    &&& accounts.len() > 0
    &&& exists|i: int| 0 <= i < accounts.len() && account_needs_session(env, links, accounts[i]@)
}

pub fn account_needs_cofl_session(env: &EnvVars, links: &Vec<String>, account: &str) -> (r: bool)
    ensures
        r == account_needs_session(*env, links@, account@),
{
    let key = account_env_key("SAF_COFL_SOCKET", account);
    match env.trimmed_env(key.as_str()) {
        None => true,
        Some(link) => !link_has_session(links, &link),
    }
}

pub fn should_generate_cofl_session(
    session: &str,
    accounts: &Vec<String>,
    env: &EnvVars,
    links_with_session: &Vec<String>,
) -> (r: bool)
    ensures
        r == needs_generated_session(session@, accounts@, *env, links_with_session@),
{
    let s = chars_of(session);
    let t = trim_chars(&s);
    if t.len() != 0 || env.non_empty_env("SAF_COFL_SESSION") || accounts.len() == 0 {
        return false;
    }
    let mut i: usize = 0;
    while i < accounts.len()
        invariant
            i <= accounts.len(),
            trim(session@).len() == 0,
            !env.non_empty("SAF_COFL_SESSION"@),
            accounts.len() > 0,
            forall|k: int| 0 <= k < i ==> !account_needs_session(*env, links_with_session@, #[trigger] accounts@[k]@),
        decreases accounts.len() - i,
    {
        if account_needs_cofl_session(env, links_with_session, accounts[i].as_str()) {
            assert(account_needs_session(*env, links_with_session@, accounts@[i as int]@));
            return true;
        }
        i = i + 1;
    }
    false
}

/// A Discord user id as the gateway compares it: trimmed, parsed as a
/// 64-bit number and printed back (so leading zeros go).
pub open spec fn discord_id(value: Seq<char>) -> Option<Seq<char>> {
    match parse_u64(trim(value)) {
        Some(n) => Some(decimal(n as nat)),
        None => None,
    }
}

pub fn normalize_discord_user_id(value: &str) -> (r: Option<String>)
    ensures
        r matches Some(s) ==> discord_id(value@) == Some(s@),
        r is None ==> discord_id(value@) is None,
{
    let c = chars_of(value);
    let t = trim_chars(&c);
    if t.len() == 0 {
        return None;
    }
    match parse_u64_chars(&t) {
        Some(n) => {
            let d = decimal_chars(n);
            Some(string_of(&d))
        },
        None => None,
    }
}

/// Lexicographic order on character sequences (the order of `String`).
pub open spec fn lex_lt(a: Seq<char>, b: Seq<char>) -> bool
    decreases a.len(),
{
    if a.len() == 0 {
        b.len() > 0
    } else if b.len() == 0 {
        false
    } else if a[0] != b[0] {
        a[0] < b[0]
    } else {
        lex_lt(a.drop_first(), b.drop_first())
    }
}

pub fn chars_lt(a: &Vec<char>, b: &Vec<char>) -> (r: bool)
    ensures
        r == lex_lt(a@, b@),
{
    let mut i: usize = 0;
    assert(a@.skip(0) =~= a@);
    assert(b@.skip(0) =~= b@);
    while i < a.len() && i < b.len()
        invariant
            i <= a.len() && i <= b.len(),
            lex_lt(a@, b@) == lex_lt(a@.skip(i as int), b@.skip(i as int)),
        decreases a.len() - i,
    {
        assert(a@.skip(i as int).drop_first() =~= a@.skip(i + 1));
        assert(b@.skip(i as int).drop_first() =~= b@.skip(i + 1));
        if a[i] != b[i] {
            return a[i] < b[i];
        }
        i = i + 1;
    }
    i == a.len() && i < b.len()
}

pub fn str_lt(a: &str, b: &str) -> (r: bool)
    ensures
        r == lex_lt(a@, b@),
{
    let x = chars_of(a);
    let y = chars_of(b);
    chars_lt(&x, &y)
}

pub proof fn lemma_lex_irreflexive(a: Seq<char>)
    ensures
        !lex_lt(a, a),
    decreases a.len(),
{
    if a.len() > 0 {
        lemma_lex_irreflexive(a.drop_first());
    }
}

pub proof fn lemma_lex_total(a: Seq<char>, b: Seq<char>)
    ensures
        a != b ==> (lex_lt(a, b) || lex_lt(b, a)),
        !(lex_lt(a, b) && lex_lt(b, a)),
        !lex_lt(a, a),
    decreases a.len(),
{
    lemma_lex_irreflexive(a);
    if a.len() > 0 && b.len() > 0 {
        lemma_lex_total(a.drop_first(), b.drop_first());
        if a[0] == b[0] && a.drop_first() == b.drop_first() {
            assert(a =~= seq![a[0]] + a.drop_first());
            assert(b =~= seq![b[0]] + b.drop_first());
        }
    } else if a.len() == 0 && b.len() == 0 {
        assert(a =~= b);
    }
}

pub proof fn lemma_lex_trans(a: Seq<char>, b: Seq<char>, c: Seq<char>)
    requires
        lex_lt(a, b),
        lex_lt(b, c),
    ensures
        lex_lt(a, c),
    decreases a.len(),
{
    if a.len() > 0 && b.len() > 0 && c.len() > 0 && a[0] == b[0] && b[0] == c[0] {
        lemma_lex_trans(a.drop_first(), b.drop_first(), c.drop_first());
    }
}

/// Strictly increasing in the order of `String`: sorted, with no repeats
/// (what a `BTreeSet<String>` yields).
pub open spec fn strictly_sorted(v: Seq<Seq<char>>) -> bool {
    forall|i: int, j: int| 0 <= i < j < v.len() ==> lex_lt(#[trigger] v[i], #[trigger] v[j])
}

pub open spec fn str_views_of(v: Seq<String>) -> Seq<Seq<char>> {
    v.map_values(|s: String| s@)
}

/// Inserts `x` into the strictly sorted `set`, unless it is already there.
pub fn insert_sorted(set: &mut Vec<String>, x: String)
    requires
        strictly_sorted(str_views_of(old(set)@)),
    ensures
        strictly_sorted(str_views_of(final(set)@)),
        str_views_of(final(set)@).to_set() == str_views_of(old(set)@).to_set().insert(x@),
{
    let xc = chars_of(x.as_str());
    let ghost old_v = str_views_of(set@);
    let mut i: usize = 0;
    while i < set.len() && str_lt(set[i].as_str(), x.as_str())
        invariant
            i <= set.len(),
            set@ == old(set)@,
            old_v == str_views_of(set@),
            strictly_sorted(old_v),
            xc@ == x@,
            forall|k: int| 0 <= k < i ==> lex_lt(#[trigger] old_v[k], xc@),
        decreases set.len() - i,
    {
        i = i + 1;
    }
    if i < set.len() && str_equal(set[i].as_str(), x.as_str()) {
        assert(old_v.to_set().insert(x@) =~= old_v.to_set()) by {
            assert(old_v[i as int] == x@);
        }
        return;
    }
    proof {
        if i < set.len() {
            lemma_lex_total(old_v[i as int], xc@);
        }
    }
    set.insert(i, x);
    proof {
        let nv = str_views_of(set@);
        assert(nv =~= old_v.insert(i as int, xc@));
        assert forall|a: int, b: int| 0 <= a < b < nv.len() implies lex_lt(#[trigger] nv[a], #[trigger] nv[b]) by {
            if b < i {
            } else if b == i {
            } else if a == i {
                // x < old_v[i] <= old_v[b - 1]
                if i < old_v.len() {
                    if b - 1 > i {
                        lemma_lex_trans(xc@, old_v[i as int], old_v[b - 1]);
                    }
                }
            } else if a < i {
                if i < old_v.len() {
                    lemma_lex_trans(old_v[a], xc@, old_v[i as int]);
                    if b - 1 > i {
                        lemma_lex_trans(old_v[a], old_v[i as int], old_v[b - 1]);
                    }
                }
            }
        }
        assert(nv.to_set() =~= old_v.to_set().insert(x@)) by {
            assert forall|y: Seq<char>| nv.to_set().contains(y) <==> old_v.to_set().insert(x@).contains(y) by {
                if nv.to_set().contains(y) {
                    let k = choose|k: int| 0 <= k < nv.len() && nv[k] == y;
                    if k < i {
                        assert(old_v[k] == y);
                    } else if k > i {
                        assert(old_v[k - 1] == y);
                    }
                }
                if old_v.to_set().contains(y) {
                    let k = choose|k: int| 0 <= k < old_v.len() && old_v[k] == y;
                    if k < i {
                        assert(nv[k] == y);
                    } else {
                        assert(nv[k + 1] == y);
                    }
                }
                if y == x@ {
                    assert(nv[i as int] == y);
                }
            }
        }
    }
}

/// The distinct Discord ids that the raw values normalise to.
pub open spec fn id_set(raws: Seq<Seq<char>>) -> Set<Seq<char>> {
    Set::new(|x: Seq<char>| exists|i: int| 0 <= i < raws.len() && discord_id(raws[i]) == Some(x))
}

/// The ids that `SAF_DISCORD_ALLOWED_IDS` lists (comma separated).
pub open spec fn env_id_set(env: EnvVars) -> Set<Seq<char>> {
    match env.lookup("SAF_DISCORD_ALLOWED_IDS"@) {
        Some(v) => id_set(split_char(v, ',')),
        None => Set::empty(),
    }
}

/// Adds the normalised ids of `raws` to the strictly sorted `set`.
pub fn insert_ids(set: &mut Vec<String>, raws: &Vec<String>)
    requires
        strictly_sorted(str_views_of(old(set)@)),
    ensures
        strictly_sorted(str_views_of(final(set)@)),
        str_views_of(final(set)@).to_set() == str_views_of(old(set)@).to_set().union(
            id_set(str_views_of(raws@)),
        ),
{
    let ghost start = str_views_of(set@).to_set();
    let mut i: usize = 0;
    while i < raws.len()
        invariant
            i <= raws.len(),
            strictly_sorted(str_views_of(set@)),
            str_views_of(set@).to_set() == start.union(id_set(str_views_of(raws@).take(i as int))),
        decreases raws.len() - i,
    {
        let ghost before = str_views_of(set@).to_set();
        let n = normalize_discord_user_id(raws[i].as_str());
        match n {
            Some(id) => {
                insert_sorted(set, id);
            },
            None => {},
        }
        proof {
            let rv = str_views_of(raws@);
            assert(rv.take(i + 1) =~= rv.take(i as int).push(rv[i as int]));
            assert(id_set(rv.take(i + 1)) =~= id_set(rv.take(i as int)).union(
                match discord_id(rv[i as int]) {
                    Some(x) => set![x],
                    None => Set::empty(),
                },
            )) by {
                assert forall|x: Seq<char>| id_set(rv.take(i + 1)).contains(x) implies id_set(
                    rv.take(i as int),
                ).contains(x) || discord_id(rv[i as int]) == Some(x) by {
                    let k = choose|k: int| 0 <= k < i + 1 && discord_id(#[trigger] rv.take(i + 1)[k]) == Some(x);
                    if k < i {
                        assert(rv.take(i as int)[k] == rv.take(i + 1)[k]);
                    }
                }
                assert forall|x: Seq<char>| id_set(rv.take(i as int)).contains(x) implies id_set(
                    rv.take(i + 1),
                ).contains(x) by {
                    let k = choose|k: int| 0 <= k < i && discord_id(#[trigger] rv.take(i as int)[k]) == Some(x);
                    assert(rv.take(i + 1)[k] == rv.take(i as int)[k]);
                }
                if let Some(x) = discord_id(rv[i as int]) {
                    assert(rv.take(i + 1)[i as int] == rv[i as int]);
                }
            }
            assert(str_views_of(set@).to_set() =~= start.union(id_set(rv.take(i + 1))));
        }
        i = i + 1;
    }
    assert(str_views_of(raws@).take(raws.len() as int) =~= str_views_of(raws@));
}

/// The numeric ids listed in `SAF_DISCORD_ALLOWED_IDS`, sorted, without repeats.
pub fn env_discord_allowed_ids(env: &EnvVars) -> (r: Vec<String>)
    ensures
        strictly_sorted(str_views_of(r@)),
        str_views_of(r@).to_set() == env_id_set(*env),
{
    let mut set: Vec<String> = Vec::new();
    assert(str_views_of(set@).to_set() =~= Set::<Seq<char>>::empty());
    match env.get("SAF_DISCORD_ALLOWED_IDS") {
        Some(raw) => {
            let c = chars_of(raw.as_str());
            let pieces = split_on_char(&c, ',');
            let mut raws: Vec<String> = Vec::new();
            let mut k: usize = 0;
            while k < pieces.len()
                invariant
                    k <= pieces.len(),
                    str_views_of(raws@) == pieces@.map_values(|w: Vec<char>| w@).take(k as int),
                decreases pieces.len() - k,
            {
                let ghost before = str_views_of(raws@);
                raws.push(string_of(&pieces[k]));
                assert(str_views_of(raws@) =~= before.push(pieces@[k as int]@));
                assert(pieces@.map_values(|w: Vec<char>| w@).take(k + 1) =~= pieces@.map_values(
                    |w: Vec<char>| w@,
                ).take(k as int).push(pieces@[k as int]@));
                k = k + 1;
            }
            assert(pieces@.map_values(|w: Vec<char>| w@).take(pieces.len() as int) =~= pieces@.map_values(
                |w: Vec<char>| w@,
            ));
            insert_ids(&mut set, &raws);
            assert(str_views_of(set@).to_set() =~= env_id_set(*env));
        },
        None => {},
    }
    set
}

/// Every id of `s`, normalised again.
pub open spec fn renormalized(s: Set<Seq<char>>) -> Set<Seq<char>> {
    Set::new(|y: Seq<char>| exists|x: Seq<char>| s.contains(x) && discord_id(x) == Some(y))
}

/// The Discord ids allowed to control the gateway, from the configuration
/// and from `SAF_DISCORD_ALLOWED_IDS`.
pub open spec fn allowed_id_set(config_raws: Seq<Seq<char>>, env: EnvVars) -> Set<Seq<char>> {
    id_set(config_raws).union(renormalized(env_id_set(env)))
}

/// Sorted, repeat-free allowed Discord ids: those of `config_raws` (the
/// configured id lists and the owner id) and those of the environment.
pub fn allowed_discord_ids(config_raws: &Vec<String>, env: &EnvVars) -> (r: Vec<String>)
    ensures
        strictly_sorted(str_views_of(r@)),
        str_views_of(r@).to_set() == allowed_id_set(str_views_of(config_raws@), *env),
        r.len() == allowed_id_set(str_views_of(config_raws@), *env).len(),
{
    let mut set: Vec<String> = Vec::new();
    assert(str_views_of(set@).to_set() =~= Set::<Seq<char>>::empty());
    insert_ids(&mut set, config_raws);
    let env_ids = env_discord_allowed_ids(env);
    insert_ids(&mut set, &env_ids);
    proof {
        let ev = str_views_of(env_ids@);
        assert(id_set(ev) =~= renormalized(env_id_set(*env))) by {
            assert forall|y: Seq<char>| id_set(ev).contains(y) implies renormalized(env_id_set(*env)).contains(y) by {
                let k = choose|k: int| 0 <= k < ev.len() && discord_id(#[trigger] ev[k]) == Some(y);
                assert(ev.to_set().contains(ev[k]));
            }
            assert forall|y: Seq<char>| renormalized(env_id_set(*env)).contains(y) implies id_set(ev).contains(y) by {
                let x = choose|x: Seq<char>| #[trigger] env_id_set(*env).contains(x) && discord_id(x) == Some(y);
                assert(ev.to_set().contains(x));
                let k = choose|k: int| 0 <= k < ev.len() && #[trigger] ev[k] == x;
            }
        }
        assert(str_views_of(set@).to_set() =~= allowed_id_set(str_views_of(config_raws@), *env));
        lemma_sorted_no_duplicates(str_views_of(set@));
        str_views_of(set@).unique_seq_to_set();
    }
    set
}

pub proof fn lemma_sorted_no_duplicates(v: Seq<Seq<char>>)
    requires
        strictly_sorted(v),
    ensures
        v.no_duplicates(),
{
    assert forall|i: int, j: int| 0 <= i < v.len() && 0 <= j < v.len() && i != j implies v[i] != v[j] by {
        if i < j {
            lemma_lex_irreflexive(v[i]);
        } else {
            lemma_lex_irreflexive(v[j]);
        }
    }
}

} // verus!
