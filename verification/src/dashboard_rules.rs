//! Text handling of the loopback dashboard: clean log lines, button names
//! and the token comparison that guards its API.
use vstd::prelude::*;
use crate::text::{chars_of, split_char, split_on_char, split_words, str_equal, string_of, trim, trim_chars, words};
use crate::scan::matches_at;

verus! {

/// Log text with every ANSI escape removed.  `in_escape` says whether an
/// escape has begun and its closing `m` has not been seen yet; an escape
/// runs from the escape character through the next `m`.
pub open spec fn strip_escapes(s: Seq<char>, in_escape: bool) -> Seq<char>
    decreases s.len(),
{
    if s.len() == 0 {
        seq![]
    } else if in_escape {
        strip_escapes(s.drop_first(), s[0] != 'm')
    } else if s[0] == '\u{1b}' {
        strip_escapes(s.drop_first(), true)
    } else {
        seq![s[0]] + strip_escapes(s.drop_first(), false)
    }
}

/// Strips ANSI colour escapes so rendered log lines are clean.
pub fn strip_ansi(input: &str) -> (r: String)
    ensures
        r@ == strip_escapes(input@, false),
{
    let c = chars_of(input);
    let mut out: Vec<char> = Vec::new();
    let mut in_escape = false;
    let mut i: usize = 0;
    assert(c@.skip(0) =~= c@);
    while i < c.len()
        invariant
            i <= c.len(),
            out@ + strip_escapes(c@.skip(i as int), in_escape) == strip_escapes(c@, false),
        decreases c.len() - i,
    {
        let ch = c[i];
        let ghost rest = c@.skip(i as int);
        assert(rest[0] == ch);
        assert(rest.drop_first() =~= c@.skip(i + 1));
        if in_escape {
            in_escape = ch != 'm';
        } else if ch == '\u{1b}' {
            in_escape = true;
        } else {
            let ghost before = out@;
            out.push(ch);
            assert(before + strip_escapes(rest, false) =~= out@ + strip_escapes(c@.skip(i + 1), false));
        }
        i = i + 1;
    }
    assert(strip_escapes(c@.skip(i as int), in_escape) =~= Seq::<char>::empty());
    assert(out@ + Seq::<char>::empty() =~= out@);
    string_of(&out)
}

/// What `char::to_uppercase` yields for `c`: Unicode's full upper-case
/// mapping, one or more characters.
pub uninterp spec fn upper_case_of(c: char) -> Seq<char>;

/// Calls `char::to_uppercase` and collects the characters it yields.
#[verifier::external_body]
fn char_to_uppercase(c: char) -> (r: Vec<char>)
    ensures
        r@ == upper_case_of(c),
{
    c.to_uppercase().collect()
}

/// `value` split at every `_` and `-`, each piece with its first character
/// upper-cased, and the pieces joined with nothing between them.  `at_start`
/// says whether the next character begins a piece.
pub open spec fn capitalized(s: Seq<char>, at_start: bool) -> Seq<char>
    decreases s.len(),
{
    if s.len() == 0 {
        seq![]
    } else if s[0] == '_' || s[0] == '-' {
        capitalized(s.drop_first(), true)
    } else if at_start {
        upper_case_of(s[0]) + capitalized(s.drop_first(), false)
    } else {
        seq![s[0]] + capitalized(s.drop_first(), false)
    }
}

/// The button name for an action: `sell_inventory` gives `SellInventory`.
pub fn capitalize(value: &str) -> (r: String)
    ensures
        r@ == capitalized(value@, true),
{
    let c = chars_of(value);
    let mut out: Vec<char> = Vec::new();
    let mut at_start = true;
    let mut i: usize = 0;
    assert(c@.skip(0) =~= c@);
    while i < c.len()
        invariant
            i <= c.len(),
            out@ + capitalized(c@.skip(i as int), at_start) == capitalized(c@, true),
        decreases c.len() - i,
    {
        let ch = c[i];
        let ghost rest = c@.skip(i as int);
        let ghost before = out@;
        assert(rest[0] == ch);
        assert(rest.drop_first() =~= c@.skip(i + 1));
        if ch == '_' || ch == '-' {
            at_start = true;
        } else if at_start {
            let up = char_to_uppercase(ch);
            let mut k: usize = 0;
            while k < up.len()
                invariant
                    k <= up.len(),
                    out@ == before + up@.take(k as int),
                decreases up.len() - k,
            {
                out.push(up[k]);
                assert(up@.take(k + 1) =~= up@.take(k as int).push(up@[k as int]));
                k = k + 1;
            }
            assert(up@.take(up.len() as int) =~= up@);
            assert(before + capitalized(rest, true) =~= out@ + capitalized(c@.skip(i + 1), false));
            at_start = false;
        } else {
            out.push(ch);
            assert(before + capitalized(rest, false) =~= out@ + capitalized(c@.skip(i + 1), false));
        }
        i = i + 1;
    }
    assert(out@ + Seq::<char>::empty() =~= out@);
    string_of(&out)
}

/// Compares two secrets in time that depends only on their length: equal
/// and not empty.
pub fn constant_time_eq(a: &[u8], b: &[u8]) -> (r: bool)
    ensures
        r == (a@.len() > 0 && a@ == b@),
{
    if a.len() != b.len() || a.len() == 0 {
        return false;
    }
    let mut diff: u8 = 0;
    let mut i: usize = 0;
    while i < a.len()
        invariant
            i <= a.len(),
            a.len() == b.len(),
            (diff == 0) <==> (forall|j: int| 0 <= j < i ==> a@[j] == b@[j]),
        decreases a.len() - i,
    {
        let x = a[i];
        let y = b[i];
        let d = diff;
        assert(((d | (x ^ y)) == 0u8) <==> (d == 0u8 && x == y)) by (bit_vector);
        diff = d | (x ^ y);
        i = i + 1;
    }
    if diff == 0 {
        assert(a@ =~= b@);
        true
    } else {
        false
    }
}

/// A line without one trailing carriage return.
pub open spec fn without_cr(l: Seq<char>) -> Seq<char> {
    if l.len() > 0 && l.last() == '\r' {
        l.drop_last()
    } else {
        l
    }
}

/// `str::lines`: the text split at line feeds, a carriage return before a
/// line feed dropped, and no empty line after a final line feed.
pub open spec fn text_lines(s: Seq<char>) -> Seq<Seq<char>> {
    let pieces = split_char(s, '\n');
    let body = pieces.drop_last().map_values(|l: Seq<char>| without_cr(l));
    if pieces.last().len() == 0 {
        body
    } else {
        body.push(pieces.last())
    }
}

/// The lines of `text` (see `text_lines`).
pub fn lines_of(text: &str) -> (r: Vec<Vec<char>>)
    ensures
        r@.map_values(|w: Vec<char>| w@) == text_lines(text@),
{
    let c = chars_of(text);
    let pieces = split_on_char(&c, '\n');
    let ghost pv = pieces@.map_values(|w: Vec<char>| w@);
    proof {
        crate::text::lemma_split_char_nonempty(c@, '\n');
    }
    let n = pieces.len();
    let mut r: Vec<Vec<char>> = Vec::new();
    let mut i: usize = 0;
    while i + 1 < n
        invariant
            n == pieces.len(),
            n >= 1,
            i + 1 <= n,
            pv == pieces@.map_values(|w: Vec<char>| w@),
            r@.map_values(|w: Vec<char>| w@) == pv.take(i as int).map_values(|l: Seq<char>| without_cr(l)),
        decreases n - i,
    {
        let p = &pieces[i];
        let mut line = p.clone();
        if line.len() > 0 && line[line.len() - 1] == '\r' {
            line.pop();
        }
        let ghost before = r@.map_values(|w: Vec<char>| w@);
        assert(line@ == without_cr(pv[i as int]));
        r.push(line);
        assert(r@.map_values(|w: Vec<char>| w@) =~= before.push(without_cr(pv[i as int])));
        assert(pv.take(i + 1).map_values(|l: Seq<char>| without_cr(l)) =~= pv.take(i as int).map_values(
            |l: Seq<char>| without_cr(l),
        ).push(without_cr(pv[i as int])));
        i = i + 1;
    }
    assert(pv.take(i as int) =~= pv.drop_last());
    let last = &pieces[n - 1];
    if last.len() > 0 {
        let ghost before = r@.map_values(|w: Vec<char>| w@);
        r.push(last.clone());
        assert(r@.map_values(|w: Vec<char>| w@) =~= before.push(pv.last()));
    }
    r
}

/// The last `want` lines of the runtime log, ANSI escapes removed.
pub open spec fn log_tail(content: Seq<char>, want: nat) -> Seq<Seq<char>> {
    let all = text_lines(content).map_values(|l: Seq<char>| strip_escapes(l, false));
    if all.len() > want {
        all.skip(all.len() - want)
    } else {
        all
    }
}

/// How many log lines a request gets: 200 unless it asks, at most 2000.
pub fn log_lines_wanted(requested: Option<usize>) -> (r: usize)
    ensures
        r == (match requested {
            Some(n) => if n < 2000 {
                n
            } else {
                2000
            },
            None => 200,
        }),
{
    match requested {
        Some(n) => if n < 2000 {
            n
        } else {
            2000
        },
        None => 200,
    }
}

/// The tail of the runtime log for the dashboard.
pub fn runtime_log_tail(content: &str, want: usize) -> (r: Vec<String>)
    ensures
        r@.map_values(|s: String| s@) == log_tail(content@, want as nat),
{
    let lines = lines_of(content);
    let ghost lv = lines@.map_values(|w: Vec<char>| w@);
    let ghost all = lv.map_values(|l: Seq<char>| strip_escapes(l, false));
    let start = if lines.len() > want {
        lines.len() - want
    } else {
        0
    };
    let mut r: Vec<String> = Vec::new();
    let mut k = start;
    while k < lines.len()
        invariant
            start <= k <= lines.len(),
            lv == lines@.map_values(|w: Vec<char>| w@),
            all == lv.map_values(|l: Seq<char>| strip_escapes(l, false)),
            r@.map_values(|s: String| s@) == all.subrange(start as int, k as int),
        decreases lines.len() - k,
    {
        let ghost before = r@.map_values(|s: String| s@);
        let text = string_of(&lines[k]);
        r.push(strip_ansi(text.as_str()));
        assert(r@.map_values(|s: String| s@) =~= before.push(all[k as int]));
        assert(all.subrange(start as int, k + 1) =~= all.subrange(start as int, k as int).push(all[k as int]));
        k = k + 1;
    }
    assert(all.subrange(start as int, lines.len() as int) =~= log_tail(content@, want as nat));
    r
}

/// The level of a log line whose second word is `ERROR` or `WARN`.
pub open spec fn alert_level(line: Seq<char>) -> Option<Seq<char>> {
    let ws = words(line);
    if ws.len() >= 2 && ws[1] == "ERROR"@ {
        Some("error"@)
    } else if ws.len() >= 2 && ws[1] == "WARN"@ {
        Some("warn"@)
    } else {
        None
    }
}

/// One alert: the line's first word (its time stamp), its level and the
/// whole line.
#[derive(Clone, Debug)]
pub struct LogAlert {
    pub ts: String,
    pub level: String,
    pub message: String,
}

pub open spec fn alert_model(a: LogAlert) -> (Seq<char>, Seq<char>, Seq<char>) {
    (a.ts@, a.level@, a.message@)
}

/// The alerts of the log lines `ls` (ANSI escapes already removed), in order.
pub open spec fn alerts_of(ls: Seq<Seq<char>>) -> Seq<(Seq<char>, Seq<char>, Seq<char>)>
    decreases ls.len(),
{
    if ls.len() == 0 {
        seq![]
    } else {
        let rest = alerts_of(ls.drop_last());
        let l = ls.last();
        match alert_level(l) {
            Some(level) => rest.push((words(l)[0], level, l)),
            None => rest,
        }
    }
}

/// The last `want` alerts of the runtime log, oldest first.
pub open spec fn recent_alerts(content: Seq<char>, want: nat) -> Seq<(Seq<char>, Seq<char>, Seq<char>)> {
    let all = alerts_of(text_lines(content).map_values(|l: Seq<char>| strip_escapes(l, false)));
    if all.len() > want {
        all.skip(all.len() - want)
    } else {
        all
    }
}

/// How many alerts a request gets: 120 unless it asks, at most 500.
pub fn alert_lines_wanted(requested: Option<usize>) -> (r: usize)
    ensures
        r == (match requested {
            Some(n) => if n < 500 {
                n
            } else {
                500
            },
            None => 120,
        }),
{
    match requested {
        Some(n) => if n < 500 {
            n
        } else {
            500
        },
        None => 120,
    }
}

/// The alert of one clean log line, if it is a warning or an error.
fn alert_of_line(line: &Vec<char>) -> (r: Option<LogAlert>)
    ensures
        r matches Some(a) ==> alert_level(line@) matches Some(level) && alert_model(a) == (words(line@)[0], level, line@),
        r is None ==> alert_level(line@) is None,
{
    let ws = split_words(line);
    let ghost wv = ws@.map_values(|w: Vec<char>| w@);
    if ws.len() < 2 {
        return None;
    }
    assert(wv[1] == ws@[1]@);
    let level: &str = if crate::text::chars_equal(&ws[1], &chars_of("ERROR")) {
        "error"
    } else if crate::text::chars_equal(&ws[1], &chars_of("WARN")) {
        "warn"
    } else {
        return None;
    };
    Some(LogAlert { ts: string_of(&ws[0]), level: level.to_owned(), message: string_of(line) })
}

/// Recent warnings and errors of the runtime log, for the alerts feed.
pub fn recent_log_alerts(content: &str, want: usize) -> (r: Vec<LogAlert>)
    ensures
        r@.map_values(|a: LogAlert| alert_model(a)) == recent_alerts(content@, want as nat),
{
    let lines = lines_of(content);
    let ghost lv = lines@.map_values(|w: Vec<char>| w@);
    let ghost clean = lv.map_values(|l: Seq<char>| strip_escapes(l, false));
    let mut found: Vec<LogAlert> = Vec::new();
    let mut i: usize = 0;
    while i < lines.len()
        invariant
            i <= lines.len(),
            lv == lines@.map_values(|w: Vec<char>| w@),
            clean == lv.map_values(|l: Seq<char>| strip_escapes(l, false)),
            found@.map_values(|a: LogAlert| alert_model(a)) == alerts_of(clean.take(i as int)),
        decreases lines.len() - i,
    {
        let text = string_of(&lines[i]);
        let line = chars_of(strip_ansi(text.as_str()).as_str());
        assert(line@ == clean[i as int]);
        assert(clean.take(i + 1).drop_last() =~= clean.take(i as int));
        assert(clean.take(i + 1).last() == clean[i as int]);
        match alert_of_line(&line) {
            Some(a) => {
                let ghost before = found@.map_values(|a: LogAlert| alert_model(a));
                found.push(a);
                assert(found@.map_values(|a: LogAlert| alert_model(a)) =~= before.push(alert_model(a)));
            },
            None => {},
        }
        i = i + 1;
    }
    assert(clean.take(lines.len() as int) =~= clean);
    let ghost all = found@.map_values(|a: LogAlert| alert_model(a));
    let start = if found.len() > want {
        found.len() - want
    } else {
        0
    };
    let mut rest = found;
    let mut k: usize = 0;
    while k < start
        invariant
            k <= start,
            start <= all.len(),
            rest@.map_values(|a: LogAlert| alert_model(a)) == all.skip(k as int),
            rest@.len() == all.len() - k,
        decreases start - k,
    {
        let ghost before = rest@;
        rest.remove(0);
        assert(rest@ =~= before.drop_first());
        assert forall|x: int| 0 <= x < rest@.len() implies #[trigger] alert_model(rest@[x]) == all.skip(k + 1)[x] by {
            assert(rest@[x] == before[x + 1]);
            assert(before.map_values(|a: LogAlert| alert_model(a))[x + 1] == all.skip(k as int)[x + 1]);
        }
        assert(rest@.map_values(|a: LogAlert| alert_model(a)) =~= all.skip(k + 1));
        k = k + 1;
    }
    rest
}

/// The token a dashboard request presents: the bearer token of its
/// `Authorization` header (trimmed), else its `token` query parameter,
/// else nothing.
pub open spec fn presented_token(auth_header: Option<Seq<char>>, query_token: Option<Seq<char>>) -> Seq<char> {
    match auth_header {
        Some(h) if h.len() >= 7 && h.take(7) == "Bearer "@ => trim(h.skip(7)),
        _ => match query_token {
            Some(q) => q,
            None => seq![],
        },
    }
}

/// Whether a request may use the dashboard API: it presents the configured
/// token, which is not empty.
pub fn request_authorized(auth_header: Option<&str>, query_token: Option<&str>, token: &str) -> (r: bool)
    ensures
        r == (token@.len() > 0 && presented_token(
            match auth_header {
                Some(h) => Some(h@),
                None => None,
            },
            match query_token {
                Some(q) => Some(q@),
                None => None,
            },
        ) == token@),
{
    let presented: Vec<char> = match auth_header {
        Some(h) => {
            let hc = chars_of(h);
            let prefix = chars_of("Bearer ");
            proof {
                reveal_strlit("Bearer ");
            }
            if matches_at(&hc, &prefix, 0) {
                let rest = crate::config_patch::slice_chars(&hc, 7, hc.len());
                assert(rest@ =~= hc@.skip(7));
                assert(hc@.subrange(0, 7) =~= hc@.take(7));
                trim_chars(&rest)
            } else {
                proof {
                    if hc@.len() >= 7 {
                        assert(hc@.subrange(0, 7) =~= hc@.take(7));
                    }
                }
                match query_token {
                    Some(q) => chars_of(q),
                    None => Vec::new(),
                }
            }
        },
        None => match query_token {
            Some(q) => chars_of(q),
            None => Vec::new(),
        },
    };
    let t = chars_of(token);
    if t.len() == 0 {
        return false;
    }
    crate::text::chars_equal(&presented, &t)
}

/// Whose purchases a profit series covers: for `all`, the account the
/// query names (if any); otherwise the account in the path.
pub fn series_account_filter(ign: &str, query_account: Option<String>) -> (r: Option<String>)
    ensures
        ign@ == "all"@ ==> r == query_account,
        ign@ != "all"@ ==> (r matches Some(a) && a@ == ign@),
{
    if str_equal(ign, "all") {
        query_account
    } else {
        Some(string_of(&chars_of(ign)))
    }
}

/// The width of a profit series bucket in milliseconds: the requested
/// number of seconds (an hour unless given, at least one) times 1000.
pub fn series_bucket_ms(bucket: Option<u64>) -> (r: u64)
    requires
        (match bucket {
            Some(b) => if b > 1 {
                b as int
            } else {
                1int
            },
            None => 3600int,
        }) * 1000 <= u64::MAX,
    ensures
        r == (match bucket {
            Some(b) => if b > 1 {
                b as int
            } else {
                1int
            },
            None => 3600int,
        }) * 1000,
{
    let seconds: u64 = match bucket {
        Some(b) => if b > 1 {
            b
        } else {
            1
        },
        None => 3600,
    };
    seconds * 1000
}

/// How many ledger records a flips request gets: 100 unless it asks, at
/// most 2000.
pub fn flips_limit(requested: Option<usize>) -> (r: usize)
    ensures
        r == (match requested {
            Some(n) => if n < 2000 {
                n
            } else {
                2000
            },
            None => 100,
        }),
{
    match requested {
        Some(n) => if n < 2000 {
            n
        } else {
            2000
        },
        None => 100,
    }
}

/// Which ledger records a flips request lists: `bought` unless it asks.
pub fn flips_kind(requested: Option<String>) -> (r: String)
    ensures
        requested matches Some(k) ==> r == k,
        requested is None ==> r@ == "bought"@,
{
    match requested {
        Some(k) => k,
        None => "bought".to_owned(),
    }
}

} // verus!
