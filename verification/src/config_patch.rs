//! Replacing one array (`section.field`) of a JSON5 configuration document in
//! place, keeping the comments and layout around it.
use vstd::prelude::*;
use crate::json5_edit::{
    is_ident_char, is_json5_identifier, skip_json5_space_and_comments, skip_space, splice,
    splice_chars,
};
use crate::scan::{find_char_from, find_from, find_seq_from, lemma_find_from_bounds, matches_at};
use crate::text::{chars_of, occurs_at, string_of};

verus! {

/// `key` occurs at `p` and is not glued to identifier characters on either side.
pub open spec fn standalone_at(s: Seq<char>, key: Seq<char>, p: int) -> bool {
    &&& !(p > 0 && is_ident_char(s[p - 1]))
    &&& !(p + key.len() < s.len() && is_ident_char(s[p + key.len()]))
}

/// Walks the non-overlapping occurrences of `key` from `i` (as
/// `str::match_indices` does) and answers the end of the first one that stands
/// alone.
pub open spec fn bare_key_end(s: Seq<char>, key: Seq<char>, i: int) -> Option<int>
    decreases s.len() + 1 - i,
{
    if i < 0 {
        None
    } else {
        proof {
            lemma_find_from_bounds(s, key, i);
        }
        match find_from(s, key, i) {
            None => None,
            Some(p) => if standalone_at(s, key, p) {
                Some(p + key.len())
            } else {
                bare_key_end(s, key, if key.len() == 0 { p + 1 } else { p + key.len() })
            },
        }
    }
}

pub open spec fn quoted(q: char, key: Seq<char>) -> Seq<char> {
    seq![q] + key + seq![q]
}

/// Where a key ends: after its first double-quoted spelling, else its first
/// single-quoted spelling, else its first occurrence that stands alone.
pub open spec fn config_key_end(s: Seq<char>, key: Seq<char>) -> Option<int> {
    match find_from(s, quoted('"', key), 0) {
        Some(p) => Some(p + key.len() + 2),
        None => match find_from(s, quoted('\'', key), 0) {
            Some(p) => Some(p + key.len() + 2),
            None => bare_key_end(s, key, 0),
        },
    }
}

/// The scanner state of `matching_end`: nesting depth, the open quote, and
/// whether the previous character escapes, or a line or block comment is open.
pub struct DelimiterScan {
    pub depth: int,
    pub quote: Option<char>,
    pub escaped: bool,
    pub line_comment: bool,
    pub block_comment: bool,
}

/// End (exclusive) of the `closer` that brings the depth back to zero,
/// scanning from `i` in state `st`; brackets inside strings and comments do
/// not count.
pub open spec fn matching_end(s: Seq<char>, opener: char, closer: char, i: int, st: DelimiterScan) -> Option<int>
    decreases s.len() - i,
{
    if i < 0 || i >= s.len() {
        None
    } else if st.line_comment {
        matching_end(s, opener, closer, i + 1, DelimiterScan { line_comment: s[i] != '\n', ..st })
    } else if st.block_comment {
        if occurs_at(s, seq!['*', '/'], i) {
            matching_end(s, opener, closer, i + 2, DelimiterScan { block_comment: false, ..st })
        } else {
            matching_end(s, opener, closer, i + 1, st)
        }
    } else if st.quote is Some {
        if st.escaped {
            matching_end(s, opener, closer, i + 1, DelimiterScan { escaped: false, ..st })
        } else if s[i] == '\\' {
            matching_end(s, opener, closer, i + 1, DelimiterScan { escaped: true, ..st })
        } else if s[i] == st.quote->0 {
            matching_end(s, opener, closer, i + 1, DelimiterScan { quote: None, ..st })
        } else {
            matching_end(s, opener, closer, i + 1, st)
        }
    } else if occurs_at(s, seq!['/', '/'], i) {
        matching_end(s, opener, closer, i + 2, DelimiterScan { line_comment: true, ..st })
    } else if occurs_at(s, seq!['/', '*'], i) {
        matching_end(s, opener, closer, i + 2, DelimiterScan { block_comment: true, ..st })
    } else if s[i] == '"' || s[i] == '\'' {
        matching_end(s, opener, closer, i + 1, DelimiterScan { quote: Some(s[i]), ..st })
    } else if s[i] == opener {
        matching_end(s, opener, closer, i + 1, DelimiterScan { depth: st.depth + 1, ..st })
    } else if s[i] == closer {
        if st.depth - 1 == 0 {
            Some(i + 1)
        } else {
            matching_end(s, opener, closer, i + 1, DelimiterScan { depth: st.depth - 1, ..st })
        }
    } else {
        matching_end(s, opener, closer, i + 1, st)
    }
}

pub open spec fn initial_scan() -> DelimiterScan {
    DelimiterScan {
        depth: 0,
        quote: None,
        escaped: false,
        line_comment: false,
        block_comment: false,
    }
}

/// The value of `key` when it is a bracketed `opener ... closer` value:
/// `(start, end)` of that value.
pub open spec fn delimited_value_span(s: Seq<char>, key: Seq<char>, opener: char, closer: char) -> Option<
    (int, int),
> {
    match config_key_end(s, key) {
        None => None,
        Some(key_end) => match find_from(s, seq![':'], key_end) {
            None => None,
            Some(colon) => match skip_space(s, colon + 1) {
                None => None,
                Some(start) => if 0 <= start < s.len() && s[start] == opener {
                    match matching_end(s, opener, closer, start, initial_scan()) {
                        Some(end) => Some((start, end)),
                        None => None,
                    }
                } else {
                    None
                },
            },
        },
    }
}

/// Span of the array `section.field`: the `field` array inside the
/// `section` object, as positions of the whole document.
pub open spec fn config_array_span(s: Seq<char>, section: Seq<char>, field: Seq<char>) -> Option<
    (int, int),
> {
    match delimited_value_span(s, section, '{', '}') {
        None => None,
        Some((a, b)) => match delimited_value_span(s.subrange(a, b), field, '[', ']') {
            None => None,
            Some((x, y)) => Some((a + x, a + y)),
        },
    }
}

/// What `patch_config_array` returns.
pub open spec fn patched_config_array(
    s: Seq<char>,
    section: Seq<char>,
    field: Seq<char>,
    rendered: Seq<char>,
) -> Option<Seq<char>> {
    match config_array_span(s, section, field) {
        Some((a, b)) => Some(splice(s, a, b, rendered)),
        None => None,
    }
}

fn quoted_key(q: char, key: &Vec<char>) -> (r: Vec<char>)
    ensures
        r@ == quoted(q, key@),
{
    let mut r: Vec<char> = Vec::new();
    r.push(q);
    let mut i: usize = 0;
    while i < key.len()
        invariant
            i <= key.len(),
            r@ == seq![q] + key@.subrange(0, i as int),
        decreases key.len() - i,
    {
        r.push(key[i]);
        i = i + 1;
    }
    assert(key@.subrange(0, key.len() as int) =~= key@);
    r.push(q);
    r
}

fn standalone(s: &Vec<char>, key: &Vec<char>, p: usize) -> (b: bool)
    requires
        p + key.len() <= s.len(),
    ensures
        b == standalone_at(s@, key@, p as int),
{
    if p > 0 && is_json5_identifier(s[p - 1]) {
        return false;
    }
    if p + key.len() < s.len() && is_json5_identifier(s[p + key.len()]) {
        return false;
    }
    true
}

/// End of `key` in the naive key search of the configuration editor (see
/// `config_key_end`).
pub fn find_config_key_end(s: &Vec<char>, key: &Vec<char>) -> (r: Option<usize>)
    ensures
        r matches Some(e) ==> config_key_end(s@, key@) == Some(e as int),
        r is None ==> config_key_end(s@, key@) is None,
{
    let dq = quoted_key('"', key);
    match find_seq_from(s, &dq, 0) {
        Some(p) => {
            proof {
                lemma_find_from_bounds(s@, dq@, 0);
                assert(find_from(s@, dq@, 0) == Some(p as int));
                assert(p + dq@.len() <= s.len());
            }
            return Some(p + key.len() + 2);
        },
        None => {},
    }
    let sq = quoted_key('\'', key);
    match find_seq_from(s, &sq, 0) {
        Some(p) => {
            proof {
                lemma_find_from_bounds(s@, sq@, 0);
                assert(find_from(s@, sq@, 0) == Some(p as int));
                assert(p + sq@.len() <= s.len());
            }
            return Some(p + key.len() + 2);
        },
        None => {},
    }
    assert(config_key_end(s@, key@) == bare_key_end(s@, key@, 0));
    let mut i: usize = 0;
    while i <= s.len()
        invariant
            config_key_end(s@, key@) == bare_key_end(s@, key@, 0),
            bare_key_end(s@, key@, 0) == bare_key_end(s@, key@, i as int),
        decreases s.len() + 1 - i,
    {
        proof {
            lemma_find_from_bounds(s@, key@, i as int);
        }
        match find_seq_from(s, key, i) {
            None => {
                return None;
            },
            Some(p) => {
                proof {
                    lemma_find_from_bounds(s@, key@, i as int);
                }
                if standalone(s, key, p) {
                    return Some(p + key.len());
                }
                if p >= s.len() {
                    proof {
                        assert(key@.len() == 0);
                        assert(find_from(s@, key@, p + 1) is None);
                        assert(bare_key_end(s@, key@, p + 1) is None);
                        assert(bare_key_end(s@, key@, i as int) == bare_key_end(s@, key@, p + 1));
                    }
                    return None;
                }
                i = if key.len() == 0 {
                    p + 1
                } else {
                    p + key.len()
                };
            },
        }
    }
    proof {
        lemma_find_from_bounds(s@, key@, i as int);
    }
    None
}

/// End (exclusive) of the delimiter that closes the `opener` at `start`
/// (see `matching_end`).
pub fn find_matching_delimiter(s: &Vec<char>, start: usize, opener: char, closer: char) -> (r: Option<
    usize,
>)
    requires
        start < s.len(),
        s@[start as int] == opener,
        opener != closer,
        opener != '"' && opener != '\'' && opener != '/',
    ensures
        r matches Some(e) ==> matching_end(s@, opener, closer, start as int, initial_scan())
            == Some(e as int),
        r is None ==> matching_end(s@, opener, closer, start as int, initial_scan()) is None,
{
    let star_slash: Vec<char> = vec!['*', '/'];
    let slash_slash: Vec<char> = vec!['/', '/'];
    let slash_star: Vec<char> = vec!['/', '*'];
    assert(!occurs_at(s@, seq!['/', '/'], start as int)) by {
        if start + 2 <= s.len() {
            assert(s@.subrange(start as int, start + 2)[0] == s@[start as int]);
        }
    }
    assert(!occurs_at(s@, seq!['/', '*'], start as int)) by {
        if start + 2 <= s.len() {
            assert(s@.subrange(start as int, start + 2)[0] == s@[start as int]);
        }
    }
    let mut index: usize = start + 1;
    let mut depth: usize = 1;
    let mut quote: Option<char> = None;
    let mut escaped = false;
    let mut line_comment = false;
    let mut block_comment = false;
    while index < s.len()
        invariant
            start < index <= s.len(),
            1 <= depth <= index - start,
            star_slash@ == seq!['*', '/'],
            slash_slash@ == seq!['/', '/'],
            slash_star@ == seq!['/', '*'],
            matching_end(s@, opener, closer, start as int, initial_scan()) == matching_end(
                s@,
                opener,
                closer,
                index as int,
                DelimiterScan {
                    depth: depth as int,
                    quote,
                    escaped,
                    line_comment,
                    block_comment,
                },
            ),
        decreases s.len() - index,
    {
        let ch = s[index];
        if line_comment {
            if ch == '\n' {
                line_comment = false;
            }
            index = index + 1;
            continue;
        }
        if block_comment {
            if matches_at(s, &star_slash, index) {
                block_comment = false;
                index = index + 2;
            } else {
                index = index + 1;
            }
            continue;
        }
        if let Some(active_quote) = quote {
            if escaped {
                escaped = false;
            } else if ch == '\\' {
                escaped = true;
            } else if ch == active_quote {
                quote = None;
            }
            index = index + 1;
            continue;
        }
        if matches_at(s, &slash_slash, index) {
            line_comment = true;
            index = index + 2;
            continue;
        }
        if matches_at(s, &slash_star, index) {
            block_comment = true;
            index = index + 2;
            continue;
        }
        if ch == '"' || ch == '\'' {
            quote = Some(ch);
            index = index + 1;
            continue;
        }
        if ch == opener {
            depth = depth + 1;
        } else if ch == closer {
            if depth == 1 {
                return Some(index + 1);
            }
            depth = depth - 1;
        }
        index = index + 1;
    }
    None
}

/// The characters `v[a..b]`.
pub fn slice_chars(v: &Vec<char>, a: usize, b: usize) -> (r: Vec<char>)
    requires
        a <= b <= v.len(),
    ensures
        r@ == v@.subrange(a as int, b as int),
{
    let mut r: Vec<char> = Vec::new();
    let mut i = a;
    while i < b
        invariant
            a <= i <= b <= v.len(),
            r@ == v@.subrange(a as int, i as int),
        decreases b - i,
    {
        r.push(v[i]);
        assert(v@.subrange(a as int, i + 1) =~= v@.subrange(a as int, i as int).push(v@[i as int]));
        i = i + 1;
    }
    r
}

/// Span of the `opener ... closer` value of `key` (see `delimited_value_span`).
pub fn find_json5_delimited_value(s: &Vec<char>, key: &Vec<char>, opener: char, closer: char) -> (r: Option<
    (usize, usize),
>)
    requires
        opener != closer,
        opener != '"' && opener != '\'' && opener != '/',
    ensures
        r matches Some((a, b)) ==> delimited_value_span(s@, key@, opener, closer) == Some(
            (a as int, b as int),
        ),
        r matches Some((a, b)) ==> a < b <= s.len(),
        r is None ==> delimited_value_span(s@, key@, opener, closer) is None,
{
    let key_end = match find_config_key_end(s, key) {
        Some(e) => e,
        None => {
            return None;
        },
    };
    let colon = match find_char_from(s, ':', key_end) {
        Some(c) => c,
        None => {
            return None;
        },
    };
    proof {
        lemma_find_from_bounds(s@, seq![':'], key_end as int);
        assert(find_from(s@, seq![':'], key_end as int) == Some(colon as int));
        assert(colon + 1 <= s.len());
    }
    let start = match skip_json5_space_and_comments(s, colon + 1) {
        Some(v) => v,
        None => {
            return None;
        },
    };
    if start >= s.len() || s[start] != opener {
        return None;
    }
    match find_matching_delimiter(s, start, opener, closer) {
        Some(end) => {
            proof {
                lemma_matching_end_bounds(s@, opener, closer, start as int, initial_scan());
            }
            Some((start, end))
        },
        None => None,
    }
}

pub proof fn lemma_matching_end_bounds(s: Seq<char>, opener: char, closer: char, i: int, st: DelimiterScan)
    ensures
        matching_end(s, opener, closer, i, st) matches Some(e) ==> i < e <= s.len(),
    decreases s.len() - i,
{
    if i < 0 || i >= s.len() {
    } else if st.line_comment {
        lemma_matching_end_bounds(s, opener, closer, i + 1, DelimiterScan { line_comment: s[i] != '\n', ..st });
    } else if st.block_comment {
        if occurs_at(s, seq!['*', '/'], i) {
            lemma_matching_end_bounds(s, opener, closer, i + 2, DelimiterScan { block_comment: false, ..st });
        } else {
            lemma_matching_end_bounds(s, opener, closer, i + 1, st);
        }
    } else if st.quote is Some {
        if st.escaped {
            lemma_matching_end_bounds(s, opener, closer, i + 1, DelimiterScan { escaped: false, ..st });
        } else if s[i] == '\\' {
            lemma_matching_end_bounds(s, opener, closer, i + 1, DelimiterScan { escaped: true, ..st });
        } else if s[i] == st.quote->0 {
            lemma_matching_end_bounds(s, opener, closer, i + 1, DelimiterScan { quote: None, ..st });
        } else {
            lemma_matching_end_bounds(s, opener, closer, i + 1, st);
        }
    } else if occurs_at(s, seq!['/', '/'], i) {
        lemma_matching_end_bounds(s, opener, closer, i + 2, DelimiterScan { line_comment: true, ..st });
    } else if occurs_at(s, seq!['/', '*'], i) {
        lemma_matching_end_bounds(s, opener, closer, i + 2, DelimiterScan { block_comment: true, ..st });
    } else if s[i] == '"' || s[i] == '\'' {
        lemma_matching_end_bounds(s, opener, closer, i + 1, DelimiterScan { quote: Some(s[i]), ..st });
    } else if s[i] == opener {
        lemma_matching_end_bounds(s, opener, closer, i + 1, DelimiterScan { depth: st.depth + 1, ..st });
    } else if s[i] == closer {
        if st.depth - 1 == 0 {
        } else {
            lemma_matching_end_bounds(s, opener, closer, i + 1, DelimiterScan { depth: st.depth - 1, ..st });
        }
    } else {
        lemma_matching_end_bounds(s, opener, closer, i + 1, st);
    }
}

/// Span of the object under `key`, braces included (see
/// `delimited_value_span`).
pub fn find_json5_object_range(s: &Vec<char>, key: &Vec<char>) -> (r: Option<(usize, usize)>)
    ensures
        r matches Some((a, b)) ==> delimited_value_span(s@, key@, '{', '}') == Some((a as int, b as int)),
        r matches Some((a, b)) ==> a < b <= s.len(),
        r is None ==> delimited_value_span(s@, key@, '{', '}') is None,
{
    find_json5_delimited_value(s, key, '{', '}')
}

/// Span of the array `section.field` (see `config_array_span`).
pub fn find_json5_array_range(s: &Vec<char>, section: &Vec<char>, field: &Vec<char>) -> (r: Option<
    (usize, usize),
>)
    ensures
        r matches Some((a, b)) ==> config_array_span(s@, section@, field@) == Some(
            (a as int, b as int),
        ),
        r matches Some((a, b)) ==> a < b <= s.len(),
        r is None ==> config_array_span(s@, section@, field@) is None,
{
    let (a, b) = match find_json5_object_range(s, section) {
        Some(span) => span,
        None => {
            return None;
        },
    };
    let inner = slice_chars(s, a, b);
    match find_json5_delimited_value(&inner, field, '[', ']') {
        Some((x, y)) => Some((a + x, a + y)),
        None => None,
    }
}

/// Replaces the array `section.field` of the JSON5 document `raw` with
/// `rendered` (the new array, already rendered as JSON text), keeping every
/// other character of `raw`; `None` when `raw` has no such array.
pub fn patch_config_array(raw: &str, section: &str, field: &str, rendered: &str) -> (r: Option<
    String,
>)
    ensures
        r matches Some(t) ==> patched_config_array(raw@, section@, field@, rendered@) == Some(t@),
        r is None ==> patched_config_array(raw@, section@, field@, rendered@) is None,
{
    let s = chars_of(raw);
    let sec = chars_of(section);
    let fld = chars_of(field);
    let (a, b) = match find_json5_array_range(&s, &sec, &fld) {
        Some(span) => span,
        None => {
            return None;
        },
    };
    let replacement = chars_of(rendered);
    let next = splice_chars(&s, a, b, &replacement);
    Some(string_of(&next))
}

/// Patching a rule list keeps every other character of the document: the
/// text before the list's `[` and after its `]` is unchanged, so comments and
/// neighbouring keys survive.
pub proof fn lemma_array_patch_keeps_context(s: Seq<char>, section: Seq<char>, field: Seq<char>, rendered: Seq<char>, t: Seq<char>)
    requires
        patched_config_array(s, section, field, rendered) == Some(t),
    ensures
        config_array_span(s, section, field) matches Some((a, b)) && 0 <= a < b <= s.len() && s[a] == '['
            && t.take(a) == s.take(a) && t.skip(a + rendered.len()) == s.skip(b) && t.len() == a + rendered.len()
            + (s.len() - b),
{
    let (a, b) = config_array_span(s, section, field)->0;
    let (a0, b0) = delimited_value_span(s, section, '{', '}')->0;
    let inner = s.subrange(a0, b0);
    let (x, y) = delimited_value_span(inner, field, '[', ']')->0;
    lemma_matching_end_bounds(s, '{', '}', a0, initial_scan());
    lemma_matching_end_bounds(inner, '[', ']', x, initial_scan());
    assert(inner[x] == s[a0 + x]);
    assert(t =~= s.subrange(0, a) + rendered + s.subrange(b, s.len() as int));
    assert(t.take(a) =~= s.take(a));
    assert(t.skip(a + rendered.len()) =~= s.skip(b));
}

} // verus!
