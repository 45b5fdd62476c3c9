//! Editing one string value of a JSON5 document in place, so that the
//! comments, layout and every other byte of the operator's file survive.
use vstd::prelude::*;
use crate::scan::{find_char_from, find_from, find_seq_from, lemma_find_from_bounds, matches_at};
use crate::text::{chars_of, is_ascii_alnum, is_whitespace, is_ws, occurs_at, string_of};

verus! {

/// Characters that may appear in an unquoted JSON5 key.
pub open spec fn is_ident_char(c: char) -> bool {
    c == '$' || c == '_' || is_ascii_alnum(c)
}

pub open spec fn line_comment_start(s: Seq<char>, i: int) -> bool {
    occurs_at(s, seq!['/', '/'], i)
}

pub open spec fn block_comment_start(s: Seq<char>, i: int) -> bool {
    occurs_at(s, seq!['/', '*'], i)
}

/// Where a `//` comment that starts at `i` stops: its newline, or the end.
pub open spec fn line_comment_end(s: Seq<char>, i: int) -> int {
    match find_from(s, seq!['\n'], i) {
        Some(j) => j,
        None => s.len() as int,
    }
}

/// Where a `/*` comment that starts at `i` stops: just past its `*/`.
pub open spec fn block_comment_end(s: Seq<char>, i: int) -> Option<int> {
    match find_from(s, seq!['*', '/'], i) {
        Some(k) => Some(k + 2),
        None => None,
    }
}

pub proof fn lemma_comment_ends(s: Seq<char>, i: int)
    requires
        0 <= i < s.len(),
    ensures
        line_comment_start(s, i) ==> i < line_comment_end(s, i) <= s.len(),
        block_comment_start(s, i) ==> (block_comment_end(s, i) matches Some(e) ==> i < e
            <= s.len()),
{
    lemma_find_from_bounds(s, seq!['\n'], i);
    lemma_find_from_bounds(s, seq!['*', '/'], i);
    if line_comment_start(s, i) {
        assert(s.subrange(i, i + 2)[0] == '/');
        if let Some(j) = find_from(s, seq!['\n'], i) {
            assert(s.subrange(j, j + 1)[0] == '\n');
        }
    }
}

/// The position after the whitespace and comments that start at `i`; `None`
/// when a block comment is left open.
pub open spec fn skip_space(s: Seq<char>, i: int) -> Option<int>
    decreases s.len() - i,
{
    if i < 0 || i >= s.len() {
        Some(i)
    } else if line_comment_start(s, i) {
        proof {
            lemma_comment_ends(s, i);
        }
        skip_space(s, line_comment_end(s, i))
    } else if block_comment_start(s, i) {
        proof {
            lemma_comment_ends(s, i);
        }
        match block_comment_end(s, i) {
            Some(e) => skip_space(s, e),
            None => None,
        }
    } else if is_ws(s[i]) {
        skip_space(s, i + 1)
    } else {
        Some(i)
    }
}

/// The body of a quoted string whose text continues at `cur`, with escapes
/// resolved by keeping the escaped character; also the position after the
/// closing quote.
pub open spec fn read_body(s: Seq<char>, quote: char, cur: int, acc: Seq<char>, escaped: bool) -> Option<
    (Seq<char>, int),
>
    decreases s.len() - cur,
{
    if cur < 0 || cur >= s.len() {
        None
    } else if escaped {
        read_body(s, quote, cur + 1, acc.push(s[cur]), false)
    } else if s[cur] == '\\' {
        read_body(s, quote, cur + 1, acc, true)
    } else if s[cur] == quote {
        Some((acc, cur + 1))
    } else {
        read_body(s, quote, cur + 1, acc.push(s[cur]), false)
    }
}

/// The quoted string that starts at `start`.
pub open spec fn read_string(s: Seq<char>, start: int) -> Option<(Seq<char>, int)> {
    if 0 <= start < s.len() && (s[start] == '"' || s[start] == '\'') {
        read_body(s, s[start], start + 1, seq![], false)
    } else {
        None
    }
}

pub proof fn lemma_read_body_end(s: Seq<char>, quote: char, cur: int, acc: Seq<char>, escaped: bool)
    ensures
        read_body(s, quote, cur, acc, escaped) matches Some((_, e)) ==> cur < e <= s.len(),
    decreases s.len() - cur,
{
    if cur < 0 || cur >= s.len() {
    } else if escaped {
        lemma_read_body_end(s, quote, cur + 1, acc.push(s[cur]), false);
    } else if s[cur] == '\\' {
        lemma_read_body_end(s, quote, cur + 1, acc, true);
    } else if s[cur] == quote {
    } else {
        lemma_read_body_end(s, quote, cur + 1, acc.push(s[cur]), false);
    }
}

/// End of the run of key characters that continues at `i`.
pub open spec fn ident_end(s: Seq<char>, i: int) -> int
    decreases s.len() - i,
{
    if 0 <= i < s.len() && is_ident_char(s[i]) {
        ident_end(s, i + 1)
    } else {
        i
    }
}

pub proof fn lemma_ident_end(s: Seq<char>, i: int)
    requires
        0 <= i <= s.len(),
    ensures
        i <= ident_end(s, i) <= s.len(),
        forall|k: int| i <= k < ident_end(s, i) ==> is_ident_char(#[trigger] s[k]),
    decreases s.len() - i,
{
    if 0 <= i < s.len() && is_ident_char(s[i]) {
        lemma_ident_end(s, i + 1);
    }
}

/// After whitespace and comments from `i`, the next character is a colon.
pub open spec fn colon_follows(s: Seq<char>, i: int) -> bool {
    match skip_space(s, i) {
        Some(j) => 0 <= j < s.len() && s[j] == ':',
        None => false,
    }
}

/// Scanning for a key from `i`: skips comments and whitespace, reads quoted
/// strings and bare identifiers as whole tokens, and answers the position
/// right after the first token equal to `key` that a colon follows.  A string
/// value or a comment that merely contains `key` is never taken for it.
pub open spec fn key_end_from(s: Seq<char>, key: Seq<char>, i: int) -> Option<int>
    decreases s.len() - i,
{
    if i < 0 || i >= s.len() {
        None
    } else if line_comment_start(s, i) {
        proof {
            lemma_comment_ends(s, i);
        }
        key_end_from(s, key, line_comment_end(s, i))
    } else if block_comment_start(s, i) {
        proof {
            lemma_comment_ends(s, i);
        }
        match block_comment_end(s, i) {
            Some(e) => key_end_from(s, key, e),
            None => None,
        }
    } else if is_ws(s[i]) {
        key_end_from(s, key, i + 1)
    } else if s[i] == '"' || s[i] == '\'' {
        proof {
            lemma_read_body_end(s, s[i], i + 1, seq![], false);
        }
        match read_string(s, i) {
            Some((candidate, end)) => if candidate == key && colon_follows(s, end) {
                Some(end)
            } else {
                key_end_from(s, key, end)
            },
            None => None,
        }
    } else if is_ident_char(s[i]) {
        proof {
            lemma_ident_end(s, i + 1);
        }
        let e = ident_end(s, i + 1);
        if s.subrange(i, e) == key && colon_follows(s, e) {
            Some(e)
        } else {
            key_end_from(s, key, e)
        }
    } else {
        key_end_from(s, key, i + 1)
    }
}

/// Position just past the closing `quote` of a string whose text continues
/// at `cur`.
pub open spec fn closing_quote(s: Seq<char>, quote: char, cur: int, escaped: bool) -> Option<int>
    decreases s.len() - cur,
{
    if cur < 0 || cur >= s.len() {
        None
    } else if escaped {
        closing_quote(s, quote, cur + 1, false)
    } else if s[cur] == '\\' {
        closing_quote(s, quote, cur + 1, true)
    } else if s[cur] == quote {
        Some(cur + 1)
    } else {
        closing_quote(s, quote, cur + 1, false)
    }
}

pub proof fn lemma_closing_quote(s: Seq<char>, quote: char, cur: int, escaped: bool)
    ensures
        closing_quote(s, quote, cur, escaped) matches Some(e) ==> cur < e <= s.len() && s[e
            - 1] == quote,
    decreases s.len() - cur,
{
    if cur < 0 || cur >= s.len() {
    } else if escaped {
        lemma_closing_quote(s, quote, cur + 1, false);
    } else if s[cur] == '\\' {
        lemma_closing_quote(s, quote, cur + 1, true);
    } else if s[cur] == quote {
    } else {
        lemma_closing_quote(s, quote, cur + 1, false);
    }
}

/// The span `(start, end)` of the quoted string value of `key`: found after
/// the key, the first colon behind it, and the whitespace and comments that
/// follow.
pub open spec fn string_value_span(s: Seq<char>, key: Seq<char>) -> Option<(int, int)> {
    match key_end_from(s, key, 0) {
        None => None,
        Some(after_key) => match find_from(s, seq![':'], after_key) {
            None => None,
            Some(colon) => match skip_space(s, colon + 1) {
                None => None,
                Some(start) => if 0 <= start < s.len() && (s[start] == '"' || s[start] == '\'') {
                    match closing_quote(s, s[start], start + 1, false) {
                        Some(end) => Some((start, end)),
                        None => None,
                    }
                } else {
                    None
                },
            },
        },
    }
}

/// `s` with `s[start..end]` replaced by `replacement`.
pub open spec fn splice(s: Seq<char>, start: int, end: int, replacement: Seq<char>) -> Seq<char> {
    s.subrange(0, start) + replacement + s.subrange(end, s.len() as int)
}

/// The lower-case hex digit of `d`, for `d < 16`.
pub open spec fn hex_digit(d: int) -> char {
    if d < 10 {
        ((48 + d) as u32) as char
    } else {
        ((87 + d) as u32) as char
    }
}

/// How serde_json writes one character inside a JSON string: quote and
/// backslash, and the control characters below U+0020, are escaped
/// (`\b \t \n \f \r` by name, the others as `\u00XX` in lower-case hex);
/// every other character is written as it is.
pub open spec fn json_escape_char(c: char) -> Seq<char> {
    if c == '"' {
        seq!['\\', '"']
    } else if c == '\\' {
        seq!['\\', '\\']
    } else if c == '\u{08}' {
        seq!['\\', 'b']
    } else if c == '\t' {
        seq!['\\', 't']
    } else if c == '\n' {
        seq!['\\', 'n']
    } else if c == '\u{0C}' {
        seq!['\\', 'f']
    } else if c == '\r' {
        seq!['\\', 'r']
    } else if (c as u32) < 32 {
        seq!['\\', 'u', '0', '0', hex_digit((c as int) / 16), hex_digit((c as int) % 16)]
    } else {
        seq![c]
    }
}

/// The escaped characters of a JSON string's body.
pub open spec fn json_escape(value: Seq<char>) -> Seq<char>
    decreases value.len(),
{
    if value.len() == 0 {
        seq![]
    } else {
        json_escape_char(value[0]) + json_escape(value.drop_first())
    }
}

/// The JSON text that `serde_json::to_string` produces for a string: the
/// escaped characters between double quotes.
pub open spec fn json_string_literal(value: Seq<char>) -> Seq<char> {
    seq!['"'] + json_escape(value) + seq!['"']
}

/// A character that serde_json writes unescaped inside a string.
pub open spec fn json_plain_char(c: char) -> bool {
    (c as u32) >= 32 && c != '"' && c != '\\'
}

/// A string of characters that need no escaping is written as it is,
/// between double quotes.
pub proof fn lemma_plain_string_literal(value: Seq<char>)
    requires
        forall|i: int| 0 <= i < value.len() ==> json_plain_char(#[trigger] value[i]),
    ensures
        json_escape(value) == value,
        json_string_literal(value) == seq!['"'] + value + seq!['"'],
    decreases value.len(),
{
    if value.len() > 0 {
        let rest = value.drop_first();
        assert forall|i: int| 0 <= i < rest.len() implies json_plain_char(#[trigger] rest[i]) by {
            assert(rest[i] == value[i + 1]);
        }
        lemma_plain_string_literal(rest);
        assert(json_plain_char(value[0]));
        assert(json_escape_char(value[0]) == seq![value[0]]);
        assert(value =~= seq![value[0]] + rest);
    }
}

/// Calls `serde_json::to_string` on a `&str`.  Serialising a string cannot
/// fail, so the call always succeeds, and the text is the string's
/// characters escaped as `json_string_literal` states, between quotes.
#[verifier::external_body]
fn encode_json_string(value: &str) -> (r: Option<String>)
    ensures
        r is Some,
        r is Some ==> r->0@ == json_string_literal(value@),
{
    serde_json::to_string(value).ok()
}

/// What `patch_string_value` returns: the document with the quoted value of
/// `key` replaced by the JSON encoding of `value`, or `None` when `key` has
/// no string value.
pub open spec fn patched_string_value(s: Seq<char>, key: Seq<char>, value: Seq<char>) -> Option<
    Seq<char>,
> {
    match string_value_span(s, key) {
        Some((start, end)) => Some(splice(s, start, end, json_string_literal(value))),
        None => None,
    }
}

pub fn skip_json5_space_and_comments(s: &Vec<char>, start: usize) -> (r: Option<usize>)
    ensures
        r matches Some(j) ==> skip_space(s@, start as int) == Some(j as int),
        r is None ==> skip_space(s@, start as int) is None,
{
    let mut index = start;
    let star_slash: Vec<char> = vec!['*', '/'];
    let slash_slash: Vec<char> = vec!['/', '/'];
    let slash_star: Vec<char> = vec!['/', '*'];
    while index < s.len()
        invariant
            skip_space(s@, start as int) == skip_space(s@, index as int),
            star_slash@ == seq!['*', '/'],
            slash_slash@ == seq!['/', '/'],
            slash_star@ == seq!['/', '*'],
        decreases s.len() - index,
    {
        proof {
            lemma_comment_ends(s@, index as int);
        }
        if matches_at(s, &slash_slash, index) {
            index = match find_char_from(s, '\n', index) {
                Some(j) => j,
                None => s.len(),
            };
            continue;
        }
        if matches_at(s, &slash_star, index) {
            match find_seq_from(s, &star_slash, index) {
                Some(k) => {
                    index = k + 2;
                },
                None => {
                    return None;
                },
            }
            continue;
        }
        if is_whitespace(s[index]) {
            index = index + 1;
            continue;
        }
        return Some(index);
    }
    Some(index)
}

/// Reads the quoted string that starts at `start`: its text and the
/// position after the closing quote.
pub fn read_json5_string(s: &Vec<char>, start: usize) -> (r: Option<(Vec<char>, usize)>)
    ensures
        r matches Some((v, e)) ==> read_string(s@, start as int) == Some((v@, e as int)),
        r is None ==> read_string(s@, start as int) is None,
{
    if start >= s.len() {
        return None;
    }
    let quote = s[start];
    if quote != '"' && quote != '\'' {
        return None;
    }
    let mut value: Vec<char> = Vec::new();
    let mut escaped = false;
    let mut cursor = start + 1;
    while cursor < s.len()
        invariant
            start < cursor,
            read_string(s@, start as int) == read_body(
                s@,
                quote,
                cursor as int,
                value@,
                escaped,
            ),
            quote == s@[start as int],
        decreases s.len() - cursor,
    {
        let ch = s[cursor];
        if escaped {
            value.push(ch);
            escaped = false;
        } else if ch == '\\' {
            escaped = true;
        } else if ch == quote {
            return Some((value, cursor + 1));
        } else {
            value.push(ch);
        }
        cursor = cursor + 1;
    }
    None
}

/// Whether, past spaces and comments from `index`, a colon comes next.
fn json5_key_is_followed_by_colon(s: &Vec<char>, index: usize) -> (b: bool)
    ensures
        b == colon_follows(s@, index as int),
{
    match skip_json5_space_and_comments(s, index) {
        Some(j) => j < s.len() && s[j] == ':',
        None => false,
    }
}

pub fn is_json5_identifier(c: char) -> (b: bool)
    ensures
        b == is_ident_char(c),
{
    c == '$' || c == '_' || crate::text::is_alnum(c)
}

/// Whether `s[start..end]` equals `key`.
fn span_equals(s: &Vec<char>, start: usize, end: usize, key: &Vec<char>) -> (b: bool)
    requires
        start <= end <= s.len(),
    ensures
        b == (s@.subrange(start as int, end as int) == key@),
{
    if end - start != key.len() {
        return false;
    }
    let b = matches_at(s, key, start);
    b
}

/// Position right after the first key token equal to `key` that a colon
/// follows (see `key_end_from`).
pub fn find_json5_key_end(s: &Vec<char>, key: &Vec<char>) -> (r: Option<usize>)
    ensures
        r matches Some(e) ==> key_end_from(s@, key@, 0) == Some(e as int),
        r is None ==> key_end_from(s@, key@, 0) is None,
{
    let mut index: usize = 0;
    let star_slash: Vec<char> = vec!['*', '/'];
    let slash_slash: Vec<char> = vec!['/', '/'];
    let slash_star: Vec<char> = vec!['/', '*'];
    while index < s.len()
        invariant
            key_end_from(s@, key@, 0) == key_end_from(s@, key@, index as int),
            star_slash@ == seq!['*', '/'],
            slash_slash@ == seq!['/', '/'],
            slash_star@ == seq!['/', '*'],
        decreases s.len() - index,
    {
        proof {
            lemma_comment_ends(s@, index as int);
        }
        if matches_at(s, &slash_slash, index) {
            index = match find_char_from(s, '\n', index) {
                Some(j) => j,
                None => s.len(),
            };
            continue;
        }
        if matches_at(s, &slash_star, index) {
            match find_seq_from(s, &star_slash, index) {
                Some(k) => {
                    index = k + 2;
                },
                None => {
                    return None;
                },
            }
            continue;
        }
        let ch = s[index];
        if is_whitespace(ch) {
            index = index + 1;
            continue;
        }
        if ch == '"' || ch == '\'' {
            proof {
                lemma_read_body_end(s@, ch, index + 1, seq![], false);
            }
            match read_json5_string(s, index) {
                Some((candidate, end)) => {
                    if candidate.len() == key.len() && matches_at(&candidate, key, 0)
                        && json5_key_is_followed_by_colon(s, end) {
                        assert(candidate@.subrange(0, key@.len() as int) =~= candidate@);
                        return Some(end);
                    }
                    proof {
                        if candidate@ == key@ {
                            assert(candidate@.subrange(0, key@.len() as int) =~= candidate@);
                        }
                    }
                    index = end;
                },
                None => {
                    return None;
                },
            }
            continue;
        }
        if is_json5_identifier(ch) {
            let start = index;
            assert(key_end_from(s@, key@, 0) == key_end_from(s@, key@, start as int));
            index = index + 1;
            while index < s.len() && is_json5_identifier(s[index])
                invariant
                    start < index <= s.len(),
                    ident_end(s@, start + 1) == ident_end(s@, index as int),
                decreases s.len() - index,
            {
                index = index + 1;
            }
            proof {
                lemma_ident_end(s@, start + 1);
            }
            if span_equals(s, start, index, key) && json5_key_is_followed_by_colon(s, index) {
                return Some(index);
            }
            continue;
        }
        index = index + 1;
    }
    None
}

/// Span of the quoted string value of `key` (see `string_value_span`).
pub fn find_json5_string_value(s: &Vec<char>, key: &Vec<char>) -> (r: Option<(usize, usize)>)
    ensures
        r matches Some((a, b)) ==> string_value_span(s@, key@) == Some((a as int, b as int)),
        r is None ==> string_value_span(s@, key@) is None,
{
    let after_key = match find_json5_key_end(s, key) {
        Some(e) => e,
        None => {
            return None;
        },
    };
    let colon = match find_char_from(s, ':', after_key) {
        Some(c) => c,
        None => {
            return None;
        },
    };
    proof {
        lemma_find_from_bounds(s@, seq![':'], after_key as int);
        assert(find_from(s@, seq![':'], after_key as int) == Some(colon as int));
        assert(colon + 1 <= s.len());
    }
    let value_start = match skip_json5_space_and_comments(s, colon + 1) {
        Some(v) => v,
        None => {
            return None;
        },
    };
    if value_start >= s.len() {
        return None;
    }
    let quote = s[value_start];
    if quote != '"' && quote != '\'' {
        return None;
    }
    let mut escaped = false;
    let mut cursor = value_start + 1;
    while cursor < s.len()
        invariant
            value_start < cursor,
            value_start < s.len(),
            quote == s@[value_start as int],
            quote == '"' || quote == '\'',
            skip_space(s@, colon + 1) == Some(value_start as int),
            find_from(s@, seq![':'], after_key as int) == Some(colon as int),
            key_end_from(s@, key@, 0) == Some(after_key as int),
            closing_quote(s@, quote, value_start + 1, false) == closing_quote(
                s@,
                quote,
                cursor as int,
                escaped,
            ),
        decreases s.len() - cursor,
    {
        let ch = s[cursor];
        if escaped {
            escaped = false;
        } else if ch == '\\' {
            escaped = true;
        } else if ch == quote {
            return Some((value_start, cursor + 1));
        }
        cursor = cursor + 1;
    }
    None
}

/// `v[..start] + replacement + v[end..]`.
pub fn splice_chars(v: &Vec<char>, start: usize, end: usize, replacement: &Vec<char>) -> (r: Vec<
    char,
>)
    requires
        start <= end <= v.len(),
    ensures
        r@ == splice(v@, start as int, end as int, replacement@),
{
    let mut r: Vec<char> = Vec::new();
    let mut i: usize = 0;
    while i < start
        invariant
            i <= start <= end <= v.len(),
            r@ == v@.subrange(0, i as int),
        decreases start - i,
    {
        r.push(v[i]);
        i = i + 1;
    }
    let mut k: usize = 0;
    while k < replacement.len()
        invariant
            k <= replacement.len(),
            r@ == v@.subrange(0, start as int) + replacement@.subrange(0, k as int),
        decreases replacement.len() - k,
    {
        r.push(replacement[k]);
        k = k + 1;
    }
    assert(replacement@.subrange(0, replacement.len() as int) =~= replacement@);
    let mut j: usize = end;
    while j < v.len()
        invariant
            end <= j <= v.len(),
            r@ == v@.subrange(0, start as int) + replacement@ + v@.subrange(end as int, j as int),
        decreases v.len() - j,
    {
        r.push(v[j]);
        assert(v@.subrange(end as int, j + 1) =~= v@.subrange(end as int, j as int).push(v@[j as int]));
        j = j + 1;
    }
    r
}

/// Replaces the quoted string value of `key` with the JSON encoding of
/// `value`, leaving every other character of `raw` as it was; `None` when
/// `raw` holds no string value for `key`.
pub fn patch_string_value(raw: &str, key: &str, value: &str) -> (r: Option<String>)
    ensures
        r matches Some(t) ==> patched_string_value(raw@, key@, value@) == Some(t@),
        r is None ==> patched_string_value(raw@, key@, value@) is None,
{
    let s = chars_of(raw);
    let k = chars_of(key);
    let (start, end) = match find_json5_string_value(&s, &k) {
        Some(span) => span,
        None => {
            return None;
        },
    };
    proof {
        lemma_closing_quote(s@, s@[start as int], start + 1, false);
    }
    let encoded = match encode_json_string(value) {
        Some(e) => e,
        None => {
            return None;
        },
    };
    let replacement = chars_of(encoded.as_str());
    let next = splice_chars(&s, start, end, &replacement);
    Some(string_of(&next))
}

/// Patching a string value keeps every other character of the document:
/// the text before the value's opening quote and after its closing quote is
/// unchanged, and the replaced span is one quoted string.
pub proof fn lemma_patch_keeps_context(s: Seq<char>, key: Seq<char>, value: Seq<char>, t: Seq<char>)
    requires
        patched_string_value(s, key, value) == Some(t),
    ensures
        string_value_span(s, key) matches Some((a, b)) && 0 <= a < b <= s.len() && (s[a] == '"' || s[a] == '\'')
            && s[b - 1] == s[a] && t.take(a) == s.take(a) && t.skip(a + json_string_literal(value).len()) == s.skip(b)
            && t.len() == a + json_string_literal(value).len() + (s.len() - b),
{
    let (a, b) = string_value_span(s, key)->0;
    lemma_closing_quote(s, s[a], a + 1, false);
    let lit = json_string_literal(value);
    assert(t =~= s.subrange(0, a) + lit + s.subrange(b, s.len() as int));
    assert(t.take(a) =~= s.take(a));
    assert(t.skip(a + lit.len()) =~= s.skip(b));
}

} // verus!
