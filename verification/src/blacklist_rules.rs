//! How blacklist values typed by an operator are normalised and compared:
//! item tags, item names, enchantments (with numeric or Roman levels) and
//! item/enchantment pairs.
use vstd::prelude::*;
use crate::text::{
    all_digits, ascii_lower, ascii_upper, chars_equal, chars_of, collapse_whitespace, collapse_ws,
    concat_chars, decimal, decimal_chars, digit_value, digits_value, is_alnum, is_ascii_alnum,
    is_ascii_digit, join, join_words, lower_chars, parse_u32, parse_u64, split_words, starts_with,
    string_of, trim, trim_chars, upper_chars, upper_seq, words,
};

verus! {

/// Which list of a blacklist section a value belongs to.
#[derive(Clone, Copy, Debug, PartialEq, Eq, Structural)]
pub enum BlacklistField {
    Tag,
    Name,
    Enchant,
    ItemEnchant,
}

/// Which blacklist section an update edits.
#[derive(Clone, Copy, Debug, PartialEq, Eq, Structural)]
pub enum BlacklistScope {
    Buy,
    Relist,
}

/// Name of the configuration section of `scope`.
pub open spec fn section_key(scope: BlacklistScope) -> Seq<char> {
    match scope {
        BlacklistScope::Buy => "doNotBuy"@,
        BlacklistScope::Relist => "doNotRelist"@,
    }
}

/// Name of the configuration array of `field`.
pub open spec fn field_key(field: BlacklistField) -> Seq<char> {
    match field {
        BlacklistField::Tag => "tags"@,
        BlacklistField::Name => "names"@,
        BlacklistField::Enchant => "enchantments"@,
        BlacklistField::ItemEnchant => "itemEnchantments"@,
    }
}

pub fn section_name(scope: BlacklistScope) -> (r: &'static str)
    ensures
        r@ == section_key(scope),
{
    match scope {
        BlacklistScope::Buy => "doNotBuy",
        BlacklistScope::Relist => "doNotRelist",
    }
}

pub fn field_name(field: BlacklistField) -> (r: &'static str)
    ensures
        r@ == field_key(field),
{
    match field {
        BlacklistField::Tag => "tags",
        BlacklistField::Name => "names",
        BlacklistField::Enchant => "enchantments",
        BlacklistField::ItemEnchant => "itemEnchantments",
    }
}

/// Minecraft colour codes removed: every `§` together with the character
/// that follows it.
pub open spec fn strip_colors(s: Seq<char>) -> Seq<char>
    decreases s.len(),
{
    if s.len() == 0 {
        s
    } else if s[0] == '§' {
        if s.len() >= 2 {
            strip_colors(s.skip(2))
        } else {
            seq![]
        }
    } else {
        seq![s[0]] + strip_colors(s.drop_first())
    }
}

pub fn strip_color_codes(v: &Vec<char>) -> (r: Vec<char>)
    ensures
        r@ == strip_colors(v@),
{
    let mut out: Vec<char> = Vec::new();
    let mut i: usize = 0;
    assert(v@.subrange(0, v.len() as int) =~= v@);
    while i < v.len()
        invariant
            i <= v.len(),
            strip_colors(v@) == out@ + strip_colors(v@.subrange(i as int, v.len() as int)),
        decreases v.len() - i,
    {
        let ghost rest = v@.subrange(i as int, v.len() as int);
        if v[i] == '§' {
            if v.len() - i >= 2 {
                assert(rest.skip(2) =~= v@.subrange(i + 2, v.len() as int));
                i = i + 2;
            } else {
                assert(v@.subrange(v.len() as int, v.len() as int) =~= Seq::<char>::empty());
                assert(out@ + Seq::<char>::empty() =~= out@);
                i = v.len();
            }
        } else {
            assert(rest.drop_first() =~= v@.subrange(i + 1, v.len() as int));
            let ghost before = out@;
            out.push(v[i]);
            assert(before + (seq![v@[i as int]] + strip_colors(rest.drop_first())) =~= out@
                + strip_colors(rest.drop_first()));
            i = i + 1;
        }
    }
    assert(out@ + strip_colors(Seq::<char>::empty()) =~= out@);
    out
}

/// An item tag as stored: trimmed and upper-cased.
pub open spec fn tag_key(s: Seq<char>) -> Seq<char> {
    upper_seq(trim(s))
}

pub fn normalize_tag(value: &str) -> (r: String)
    ensures
        r@ == tag_key(value@),
{
    let v = chars_of(value);
    let t = trim_chars(&v);
    let u = upper_chars(&t);
    string_of(&u)
}

/// Every non-overlapping occurrence of the non-empty `pat` removed, scanning
/// from the left (`str::replace(pat, "")`).
pub open spec fn remove_all(s: Seq<char>, pat: Seq<char>) -> Seq<char>
    decreases s.len(),
{
    if s.len() == 0 {
        s
    } else if pat.len() > 0 && starts_with(s, pat) {
        remove_all(s.skip(pat.len() as int), pat)
    } else {
        seq![s[0]] + remove_all(s.drop_first(), pat)
    }
}

/// Characters of a name kept as they read: ASCII letters (lower-cased) and
/// digits; anything else becomes a space.
pub open spec fn name_char(c: char) -> char {
    if is_ascii_alnum(c) {
        ascii_lower(c)
    } else {
        ' '
    }
}

/// An item name as compared: colour codes removed, every `-us` removed,
/// `!` and `.` dropped, other punctuation turned into spaces, letters
/// lower-cased, and the words joined by single spaces.
pub open spec fn name_key(s: Seq<char>) -> Seq<char> {
    collapse_ws(
        remove_all(strip_colors(s), "-us"@).filter(|c: char| c != '!' && c != '.').map_values(
            |c: char| name_char(c),
        ),
    )
}

fn remove_all_chars(v: &Vec<char>, pat: &Vec<char>) -> (r: Vec<char>)
    requires
        pat.len() > 0,
    ensures
        r@ == remove_all(v@, pat@),
{
    let mut out: Vec<char> = Vec::new();
    let mut i: usize = 0;
    assert(v@.subrange(0, v.len() as int) =~= v@);
    while i < v.len()
        invariant
            i <= v.len(),
            pat.len() > 0,
            remove_all(v@, pat@) == out@ + remove_all(v@.subrange(i as int, v.len() as int), pat@),
        decreases v.len() - i,
    {
        let ghost rest = v@.subrange(i as int, v.len() as int);
        if crate::scan::matches_at(v, pat, i) {
            assert(rest.subrange(0, pat.len() as int) =~= v@.subrange(i as int, i + pat.len()));
            assert(rest.skip(pat.len() as int) =~= v@.subrange(i + pat.len(), v.len() as int));
            i = i + pat.len();
        } else {
            assert(!starts_with(rest, pat@)) by {
                if pat.len() <= rest.len() {
                    assert(rest.subrange(0, pat.len() as int) =~= v@.subrange(
                        i as int,
                        i + pat.len(),
                    ));
                }
            }
            assert(rest.drop_first() =~= v@.subrange(i + 1, v.len() as int));
            let ghost before = out@;
            out.push(v[i]);
            assert(before + (seq![v@[i as int]] + remove_all(rest.drop_first(), pat@)) =~= out@
                + remove_all(rest.drop_first(), pat@));
            i = i + 1;
        }
    }
    assert(out@ + remove_all(Seq::<char>::empty(), pat@) =~= out@);
    out
}

pub fn normalize_name(value: &Vec<char>) -> (r: Vec<char>)
    ensures
        r@ == name_key(value@),
{
    let stripped = strip_color_codes(value);
    let us = chars_of("-us");
    proof {
        reveal_strlit("-us");
    }
    let removed = remove_all_chars(&stripped, &us);
    let mut mapped: Vec<char> = Vec::new();
    let mut i: usize = 0;
    while i < removed.len()
        invariant
            i <= removed.len(),
            mapped@ == removed@.subrange(0, i as int).filter(|c: char| c != '!' && c != '.').map_values(
                |c: char| name_char(c),
            ),
        decreases removed.len() - i,
    {
        let c = removed[i];
        let ghost pre = removed@.subrange(0, i as int);
        assert(removed@.subrange(0, i + 1) =~= pre.push(c));
        proof {
            reveal_with_fuel(Seq::<_>::filter, 1);
            assert(pre.push(c).drop_last() =~= pre);
        }
        if c != '!' && c != '.' {
            let m = if is_alnum(c) {
                crate::text::to_lower(c)
            } else {
                ' '
            };
            mapped.push(m);
            assert(mapped@ =~= pre.filter(|c: char| c != '!' && c != '.').push(c).map_values(
                |c: char| name_char(c),
            ));
        }
        i = i + 1;
    }
    assert(removed@.subrange(0, removed.len() as int) =~= removed@);
    collapse_whitespace(&mapped)
}

/// `trim_start_matches(pat)`: every leading copy of `pat` removed.
pub open spec fn trim_prefix_all(s: Seq<char>, pat: Seq<char>) -> Seq<char>
    decreases s.len(),
{
    if pat.len() > 0 && starts_with(s, pat) {
        trim_prefix_all(s.skip(pat.len() as int), pat)
    } else {
        s
    }
}

/// `trim_matches(c)`: every leading and trailing `c` removed.
pub open spec fn trim_char_start(s: Seq<char>, c: char) -> Seq<char>
    decreases s.len(),
{
    if s.len() > 0 && s[0] == c {
        trim_char_start(s.drop_first(), c)
    } else {
        s
    }
}

pub open spec fn trim_char_end(s: Seq<char>, c: char) -> Seq<char>
    decreases s.len(),
{
    if s.len() > 0 && s.last() == c {
        trim_char_end(s.drop_last(), c)
    } else {
        s
    }
}

pub open spec fn enchant_char(c: char) -> char {
    if is_ascii_alnum(c) {
        ascii_upper(c)
    } else {
        '_'
    }
}

/// An enchantment id as stored: colour codes removed, trimmed, any leading
/// `ultimate ` (then `Ultimate `) removed, letters upper-cased, every other
/// character turned into `_`, and outer underscores removed.
pub open spec fn enchant_id(s: Seq<char>) -> Seq<char> {
    let t = trim_prefix_all(trim_prefix_all(trim(strip_colors(s)), "ultimate "@), "Ultimate "@);
    let m = t.map_values(|c: char| enchant_char(c));
    trim_char_end(trim_char_start(m, '_'), '_')
}

fn trim_prefix_all_chars(v: &Vec<char>, pat: &Vec<char>) -> (r: Vec<char>)
    ensures
        r@ == trim_prefix_all(v@, pat@),
{
    if pat.len() == 0 {
        return v.clone();
    }
    let mut i: usize = 0;
    assert(v@.subrange(0, v.len() as int) =~= v@);
    while crate::scan::matches_at(v, pat, i)
        invariant
            i <= v.len(),
            pat.len() > 0,
            trim_prefix_all(v@, pat@) == trim_prefix_all(v@.subrange(i as int, v.len() as int), pat@),
        decreases v.len() - i,
    {
        let ghost rest = v@.subrange(i as int, v.len() as int);
        assert(rest.subrange(0, pat.len() as int) =~= v@.subrange(i as int, i + pat.len()));
        assert(rest.skip(pat.len() as int) =~= v@.subrange(i + pat.len(), v.len() as int));
        i = i + pat.len();
    }
    let ghost rest = v@.subrange(i as int, v.len() as int);
    assert(!starts_with(rest, pat@)) by {
        if pat.len() <= rest.len() {
            assert(rest.subrange(0, pat.len() as int) =~= v@.subrange(i as int, i + pat.len()));
        }
    }
    crate::config_patch::slice_chars(v, i, v.len())
}

fn trim_char_both(v: &Vec<char>, c: char) -> (r: Vec<char>)
    ensures
        r@ == trim_char_end(trim_char_start(v@, c), c),
{
    let mut a: usize = 0;
    assert(v@.subrange(0, v.len() as int) =~= v@);
    while a < v.len() && v[a] == c
        invariant
            a <= v.len(),
            trim_char_start(v@, c) == trim_char_start(v@.subrange(a as int, v.len() as int), c),
        decreases v.len() - a,
    {
        assert(v@.subrange(a as int, v.len() as int).drop_first() =~= v@.subrange(
            a + 1,
            v.len() as int,
        ));
        a = a + 1;
    }
    let mut b: usize = v.len();
    while b > a && v[b - 1] == c
        invariant
            a <= b <= v.len(),
            trim_char_start(v@, c) == v@.subrange(a as int, v.len() as int),
            trim_char_end(trim_char_start(v@, c), c) == trim_char_end(
                v@.subrange(a as int, b as int),
                c,
            ),
        decreases b - a,
    {
        assert(v@.subrange(a as int, b as int).drop_last() =~= v@.subrange(a as int, b - 1));
        b = b - 1;
    }
    crate::config_patch::slice_chars(v, a, b)
}

pub fn normalize_enchant_id(value: &Vec<char>) -> (r: Vec<char>)
    ensures
        r@ == enchant_id(value@),
{
    let stripped = strip_color_codes(value);
    let t = trim_chars(&stripped);
    let lower_prefix = chars_of("ultimate ");
    let upper_prefix = chars_of("Ultimate ");
    let t1 = trim_prefix_all_chars(&t, &lower_prefix);
    let t2 = trim_prefix_all_chars(&t1, &upper_prefix);
    let mut m: Vec<char> = Vec::new();
    let mut i: usize = 0;
    while i < t2.len()
        invariant
            i <= t2.len(),
            m@ == t2@.subrange(0, i as int).map_values(|c: char| enchant_char(c)),
        decreases t2.len() - i,
    {
        let c = t2[i];
        let e = if is_alnum(c) {
            crate::text::to_upper(c)
        } else {
            '_'
        };
        m.push(e);
        assert(m@ =~= t2@.subrange(0, i + 1).map_values(|c: char| enchant_char(c)));
        i = i + 1;
    }
    assert(t2@.subrange(0, t2.len() as int) =~= t2@);
    trim_char_both(&m, '_')
}

pub open spec fn roman_char(c: char) -> bool {
    c == 'I' || c == 'V' || c == 'X' || c == 'L' || c == 'C' || c == 'D' || c == 'M'
}

pub open spec fn roman_digit(c: char) -> int {
    if c == 'I' {
        1
    } else if c == 'V' {
        5
    } else if c == 'X' {
        10
    } else if c == 'L' {
        50
    } else if c == 'C' {
        100
    } else if c == 'D' {
        500
    } else {
        1000
    }
}

/// Reading Roman digits from the right: the running total and the largest
/// digit added so far.  A digit smaller than that is subtracted, any other
/// is added.
pub open spec fn roman_fold(r: Seq<char>) -> (int, int)
    decreases r.len(),
{
    if r.len() == 0 {
        (0, 0)
    } else {
        let (total, previous) = roman_fold(r.drop_first());
        let current = roman_digit(r[0]);
        if current < previous {
            (total - current, previous)
        } else {
            (total + current, current)
        }
    }
}

/// Every running total of `roman_fold` stays within `u32`.
pub open spec fn roman_fits(r: Seq<char>) -> bool
    decreases r.len(),
{
    if r.len() == 0 {
        true
    } else {
        roman_fits(r.drop_first()) && 0 <= roman_fold(r).0 <= u32::MAX
    }
}

/// The value of a Roman numeral (trimmed, any case); `None` when it is empty,
/// holds another character, or a running total leaves the range of `u32`.
pub open spec fn roman_number(s: Seq<char>) -> Option<u32> {
    let r = upper_seq(trim(s));
    if r.len() == 0 || !(forall|i: int| 0 <= i < r.len() ==> roman_char(#[trigger] r[i])) {
        None
    } else if !roman_fits(r) {
        None
    } else {
        Some(roman_fold(r).0 as u32)
    }
}

pub fn roman_to_number(value: &Vec<char>) -> (r: Option<u32>)
    ensures
        r == roman_number(value@),
{
    let t = trim_chars(value);
    let roman = upper_chars(&t);
    if roman.len() == 0 {
        return None;
    }
    let mut k: usize = 0;
    while k < roman.len()
        invariant
            k <= roman.len(),
            roman@ == upper_seq(trim(value@)),
            roman.len() > 0,
            forall|i: int| 0 <= i < k ==> roman_char(#[trigger] roman@[i]),
        decreases roman.len() - k,
    {
        let c = roman[k];
        if !(c == 'I' || c == 'V' || c == 'X' || c == 'L' || c == 'C' || c == 'D' || c == 'M') {
            assert(!roman_char(roman@[k as int]));
            return None;
        }
        k = k + 1;
    }
    let mut total: i64 = 0;
    let mut previous: i64 = 0;
    let mut j: usize = roman.len();
    assert(roman@.subrange(roman.len() as int, roman.len() as int) =~= Seq::<char>::empty());
    while j > 0
        invariant
            j <= roman.len(),
            roman@ == upper_seq(trim(value@)),
            roman.len() > 0,
            forall|i: int| 0 <= i < roman.len() ==> roman_char(#[trigger] roman@[i]),
            (total as int, previous as int) == roman_fold(
                roman@.subrange(j as int, roman.len() as int),
            ),
            roman_fits(roman@.subrange(j as int, roman.len() as int)),
            0 <= total <= u32::MAX,
            0 <= previous <= 1000,
        decreases j,
    {
        let ghost rest = roman@.subrange(j - 1, roman.len() as int);
        assert(rest.drop_first() =~= roman@.subrange(j as int, roman.len() as int));
        let c = roman[j - 1];
        let current: i64 = if c == 'I' {
            1
        } else if c == 'V' {
            5
        } else if c == 'X' {
            10
        } else if c == 'L' {
            50
        } else if c == 'C' {
            100
        } else if c == 'D' {
            500
        } else {
            1000
        };
        if current < previous {
            total = total - current;
        } else {
            total = total + current;
            previous = current;
        }
        if total < 0 || total > 4294967295 {
            proof {
                assert(roman_fold(rest).0 == total as int);
                assert(!roman_fits(rest));
                if roman_fits(roman@) {
                    lemma_roman_fits_suffix(roman@, (j - 1) as int);
                }
            }
            return None;
        }
        j = j - 1;
    }
    assert(roman@.subrange(0, roman.len() as int) =~= roman@);
    Some(total as u32)
}

/// A numeral whose running totals overflow at some suffix overflows as a whole.
pub proof fn lemma_roman_fits_suffix(r: Seq<char>, j: int)
    requires
        0 <= j <= r.len(),
        roman_fits(r),
    ensures
        roman_fits(r.subrange(j, r.len() as int)),
    decreases j,
{
    if j > 0 {
        assert(r.drop_first().subrange(j - 1, r.drop_first().len() as int) =~= r.subrange(
            j,
            r.len() as int,
        ));
        lemma_roman_fits_suffix(r.drop_first(), j - 1);
    } else {
        assert(r.subrange(0, r.len() as int) =~= r);
    }
}

/// `parse_u64` on a vector of characters.
pub fn parse_u64_chars(v: &Vec<char>) -> (r: Option<u64>)
    ensures
        r == parse_u64(v@),
{
    let start: usize = if v.len() > 0 && v[0] == '+' {
        1
    } else {
        0
    };
    let ghost body = if v@.len() > 0 && v@[0] == '+' {
        v@.drop_first()
    } else {
        v@
    };
    assert(body =~= v@.subrange(start as int, v.len() as int));
    if start >= v.len() {
        return None;
    }
    let mut acc: u128 = 0;
    let mut i = start;
    while i < v.len()
        invariant
            start <= i <= v.len(),
            body == v@.subrange(start as int, v.len() as int),
            body == (if v@.len() > 0 && v@[0] == '+' {
                v@.drop_first()
            } else {
                v@
            }),
            all_digits(v@.subrange(start as int, i as int)),
            acc as nat == digits_value(v@.subrange(start as int, i as int)),
            acc <= u64::MAX,
        decreases v.len() - i,
    {
        let c = v[i];
        if !('0' <= c && c <= '9') {
            assert(body[i - start] == c);
            assert(!is_ascii_digit(body[i - start]));
            return None;
        }
        let d = ((c as u32) - 48) as u128;
        let ghost pre = v@.subrange(start as int, i as int);
        assert(v@.subrange(start as int, i + 1) =~= pre.push(c));
        assert(v@.subrange(start as int, i + 1).drop_last() =~= pre);
        assert(d as nat == digit_value(c));
        acc = acc * 10 + d;
        assert(acc as nat == digits_value(v@.subrange(start as int, i + 1)));
        if acc > 18446744073709551615 {
            proof {
                lemma_digits_prefix(body, i + 1 - start);
                assert(body.take(i + 1 - start) =~= v@.subrange(start as int, i + 1));
            }
            return None;
        }
        i = i + 1;
    }
    Some(acc as u64)
}

/// A prefix of a digit string never has a larger value than the whole.
pub proof fn lemma_digits_prefix(s: Seq<char>, k: int)
    requires
        0 <= k <= s.len(),
    ensures
        digits_value(s.take(k)) <= digits_value(s),
    decreases s.len() - k,
{
    if k < s.len() {
        lemma_digits_prefix(s.drop_last(), k);
        assert(s.drop_last().take(k) =~= s.take(k));
    } else {
        assert(s.take(k) =~= s);
    }
}

/// `parse_u32` on a vector of characters.
pub fn parse_u32_chars(v: &Vec<char>) -> (r: Option<u32>)
    ensures
        r == parse_u32(v@),
{
    match parse_u64_chars(v) {
        Some(n) => {
            if n <= 4294967295 {
                Some(n as u32)
            } else {
                None
            }
        },
        None => {
            proof {
                let body = if v@.len() > 0 && v@[0] == '+' {
                    v@.drop_first()
                } else {
                    v@
                };
            }
            None
        },
    }
}

/// An enchantment level: a decimal number (after trimming) or a Roman numeral.
pub open spec fn enchant_level(s: Seq<char>) -> Option<u32> {
    match parse_u32(trim(s)) {
        Some(n) => Some(n),
        None => roman_number(s),
    }
}

pub fn parse_enchant_level(value: &Vec<char>) -> (r: Option<u32>)
    ensures
        r == enchant_level(value@),
{
    let t = trim_chars(value);
    match parse_u32_chars(&t) {
        Some(n) => Some(n),
        None => roman_to_number(value),
    }
}

/// An enchantment: its id and, when given, its level.
#[derive(Clone, Debug, PartialEq, Eq)]
pub struct Enchantment {
    pub id: String,
    pub level: Option<u32>,
}

pub open spec fn is_level_separator(c: char) -> bool {
    c == ':' || c == '=' || c == ' '
}

/// Position of the last `:`, `=` or space of `s` (`rsplit_once`).
pub open spec fn last_separator(s: Seq<char>) -> Option<int>
    decreases s.len(),
{
    if s.len() == 0 {
        None
    } else if is_level_separator(s.last()) {
        Some(s.len() - 1)
    } else {
        last_separator(s.drop_last())
    }
}

pub proof fn lemma_last_separator(s: Seq<char>)
    ensures
        last_separator(s) matches Some(k) ==> 0 <= k < s.len() && is_level_separator(s[k]),
    decreases s.len(),
{
    if s.len() > 0 && !is_level_separator(s.last()) {
        lemma_last_separator(s.drop_last());
    }
}

/// An enchantment typed by an operator, as `(id, level)`: colour codes
/// removed and trimmed; when the text after the last `:`, `=` or space is a
/// level, that level and the normalised text before it, else the normalised
/// whole without a level.  `None` when the id comes out empty.
pub open spec fn enchant_spec(value: Seq<char>) -> Option<(Seq<char>, Option<u32>)> {
    let v = trim(strip_colors(value));
    if v.len() == 0 {
        None
    } else {
        let (name, level) = match last_separator(v) {
            Some(k) => match enchant_level(v.skip(k + 1)) {
                Some(l) => (v.take(k), Some(l)),
                None => (v, None),
            },
            None => (v, None),
        };
        if enchant_id(name).len() == 0 {
            None
        } else {
            Some((enchant_id(name), level))
        }
    }
}

pub fn parse_enchant_spec(value: &Vec<char>) -> (r: Option<Enchantment>)
    ensures
        r matches Some(e) ==> enchant_spec(value@) == Some((e.id@, e.level)),
        r is None ==> enchant_spec(value@) is None,
{
    let stripped = strip_color_codes(value);
    let v = trim_chars(&stripped);
    if v.len() == 0 {
        return None;
    }
    let mut k: usize = v.len();
    assert(v@.take(v.len() as int) =~= v@);
    while k > 0 && !(v[k - 1] == ':' || v[k - 1] == '=' || v[k - 1] == ' ')
        invariant
            k <= v.len(),
            last_separator(v@) == last_separator(v@.take(k as int)),
        decreases k,
    {
        assert(v@.take(k as int).drop_last() =~= v@.take(k - 1));
        k = k - 1;
    }
    let mut name = v.clone();
    let mut level: Option<u32> = None;
    if k > 0 {
        assert(last_separator(v@.take(k as int)) == Some(k - 1));
        let after = crate::config_patch::slice_chars(&v, k, v.len());
        assert(after@ =~= v@.skip(k as int));
        match parse_enchant_level(&after) {
            Some(l) => {
                name = crate::config_patch::slice_chars(&v, 0, k - 1);
                assert(name@ =~= v@.take(k - 1));
                level = Some(l);
            },
            None => {},
        }
    } else {
        assert(v@.take(0) =~= Seq::<char>::empty());
    }
    let id = normalize_enchant_id(&name);
    if id.len() == 0 {
        return None;
    }
    Some(Enchantment { id: string_of(&id), level })
}

/// How an enchantment is written in keys and messages: `ID` or `ID:level`.
pub open spec fn enchant_key_of(id: Seq<char>, level: Option<u32>) -> Seq<char> {
    match level {
        Some(l) => id + seq![':'] + decimal(l as nat),
        None => id,
    }
}

pub fn enchant_key(enchantment: &Enchantment) -> (r: Vec<char>)
    ensures
        r@ == enchant_key_of(enchantment.id@, enchantment.level),
{
    let id = chars_of(enchantment.id.as_str());
    match enchantment.level {
        Some(l) => {
            let mut with_colon = id;
            with_colon.push(':');
            let digits = decimal_chars(l as u64);
            concat_chars(&with_colon, &digits)
        },
        None => id,
    }
}

} // verus!
