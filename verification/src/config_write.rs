//! Names of the temporary files that configuration writes go through: each
//! write lands in a file of its own next to the target before it replaces
//! it, so concurrent writers never share one.
use vstd::prelude::*;
use crate::text::{chars_of, concat_chars, decimal, decimal_chars, string_of};

verus! {

/// The extension given to the temporary file of a write: the target's
/// extension (if any), the process id and a per-process sequence number,
/// then `tmp`, separated by dots.
pub open spec fn temp_extension_text(extension: Option<Seq<char>>, pid: u32, sequence: u64) -> Seq<char> {
    let tail = decimal(pid as nat) + "."@ + decimal(sequence as nat) + ".tmp"@;
    match extension {
        Some(e) => e + "."@ + tail,
        None => tail,
    }
}

pub fn temp_extension(extension: Option<&str>, pid: u32, sequence: u64) -> (r: String)
    ensures
        r@ == temp_extension_text(
            match extension {
                Some(e) => Some(e@),
                None => None,
            },
            pid,
            sequence,
        ),
{
    let mut tail = decimal_chars(pid as u64);
    tail = concat_chars(&tail, &chars_of("."));
    tail = concat_chars(&tail, &decimal_chars(sequence));
    tail = concat_chars(&tail, &chars_of(".tmp"));
    match extension {
        Some(e) => {
            let head = concat_chars(&chars_of(e), &chars_of("."));
            string_of(&concat_chars(&head, &tail))
        },
        None => string_of(&tail),
    }
}

/// Two writes of one process never share a temporary file: their sequence
/// numbers differ, and so do the extensions.
pub proof fn lemma_temp_extensions_differ(extension: Option<Seq<char>>, pid: u32, a: u64, b: u64)
    requires
        a != b,
    ensures
        temp_extension_text(extension, pid, a) != temp_extension_text(extension, pid, b),
{
    reveal_strlit(".");
    reveal_strlit(".tmp");
    let p = decimal(pid as nat) + "."@;
    let head = match extension {
        Some(e) => e + "."@ + p,
        None => p,
    };
    let x = temp_extension_text(extension, pid, a);
    let y = temp_extension_text(extension, pid, b);
    assert(x == head + decimal(a as nat) + ".tmp"@);
    assert(y == head + decimal(b as nat) + ".tmp"@);
    if x == y {
        assert(x.subrange(head.len() as int, x.len() - 4) =~= decimal(a as nat));
        assert(y.subrange(head.len() as int, y.len() - 4) =~= decimal(b as nat));
        crate::text::lemma_decimal_injective(a as nat, b as nat);
    }
}

proof fn lemma_decimal_digits(n: nat)
    ensures
        crate::text::all_digits(decimal(n)),
    decreases n,
{
    if n >= 10 {
        lemma_decimal_digits(n / 10);
        let d = decimal(n / 10);
        assert forall|i: int| 0 <= i < d.push(crate::text::digit_char(n % 10)).len() implies crate::text::is_ascii_digit(
            #[trigger] d.push(crate::text::digit_char(n % 10))[i],
        ) by {
            if i < d.len() {
                assert(d.push(crate::text::digit_char(n % 10))[i] == d[i]);
            }
        }
    }
}

/// The temporary file stays in the target's directory: where the target's
/// extension has no path separator, neither has the temporary extension,
/// so replacing the extension keeps the file next to the target.
pub proof fn lemma_temp_extension_keeps_directory(extension: Option<Seq<char>>, pid: u32, sequence: u64)
    requires
        extension matches Some(e) ==> !e.contains('/') && !e.contains('\\'),
    ensures
        !temp_extension_text(extension, pid, sequence).contains('/'),
        !temp_extension_text(extension, pid, sequence).contains('\\'),
{
    reveal_strlit(".");
    reveal_strlit(".tmp");
    lemma_decimal_digits(pid as nat);
    lemma_decimal_digits(sequence as nat);
    let p = decimal(pid as nat);
    let q = decimal(sequence as nat);
    let tail = p + "."@ + q + ".tmp"@;
    assert forall|i: int| 0 <= i < tail.len() implies tail[i] != '/' && tail[i] != '\\' by {
        if i < p.len() {
            assert(tail[i] == p[i]);
            assert(crate::text::is_ascii_digit(p[i]));
        } else if i == p.len() {
        } else if i < p.len() + 1 + q.len() {
            assert(tail[i] == q[i - p.len() - 1]);
            assert(crate::text::is_ascii_digit(q[i - p.len() - 1]));
        } else {
        }
    }
    let t = temp_extension_text(extension, pid, sequence);
    match extension {
        Some(e) => {
            assert(t == e + "."@ + tail);
            assert forall|i: int| 0 <= i < t.len() implies t[i] != '/' && t[i] != '\\' by {
                if i < e.len() {
                    assert(t[i] == e[i]);
                } else if i == e.len() {
                } else {
                    assert(t[i] == tail[i - e.len() - 1]);
                }
            }
        },
        None => {
            assert(t == tail);
        },
    }
}

/// The temporary file of a small state file: its name followed by `.tmp`.
pub fn state_temp_file_name(file_name: Option<&str>) -> (r: String)
    ensures
        file_name matches Some(f) ==> r@ == f@ + ".tmp"@,
        file_name is None ==> r@ == "bank-cooldowns.json"@ + ".tmp"@,
{
    let name = match file_name {
        Some(f) => chars_of(f),
        None => chars_of("bank-cooldowns.json"),
    };
    string_of(&concat_chars(&name, &chars_of(".tmp")))
}

} // verus!
