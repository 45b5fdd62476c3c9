//! Records kept while processing the command inbox, and the tail of the
//! game log that the log reader reports.
use vstd::prelude::*;
use crate::text::{chars_of, split_char, split_on_char, string_of, trim, trim_chars};

verus! {

/// Which account statistic a command asked for.
#[derive(Clone, Copy, Debug, PartialEq, Eq, Structural)]
pub enum StatsRequestKind {
    Stats,
    Ping,
}

/// Which lifecycle change a command asked for.
#[derive(Clone, Copy, Debug, PartialEq, Eq, Structural)]
pub enum LifecycleAction {
    Start,
    Stop,
}

impl StatsRequestKind {
    /// The name used when the record is serialised.
    pub fn name(&self) -> (r: &'static str)
        ensures
            *self == StatsRequestKind::Stats ==> r@ == "stats"@,
            *self == StatsRequestKind::Ping ==> r@ == "ping"@,
    {
        match self {
            StatsRequestKind::Stats => "stats",
            StatsRequestKind::Ping => "ping",
        }
    }
}

impl LifecycleAction {
    /// The name used when the record is serialised.
    pub fn name(&self) -> (r: &'static str)
        ensures
            *self == LifecycleAction::Start ==> r@ == "start"@,
            *self == LifecycleAction::Stop ==> r@ == "stop"@,
    {
        match self {
            LifecycleAction::Start => "start",
            LifecycleAction::Stop => "stop",
        }
    }
}

/// Reads the recent lines of a game log file.
#[derive(Clone, Debug)]
pub struct FileLogReader {
    path: String,
}

impl FileLogReader {
    pub closed spec fn path_view(&self) -> Seq<char> {
        self.path@
    }

    pub fn new(path: &str) -> (r: Self)
        ensures
            r.path_view() == path@,
    {
        FileLogReader { path: path.to_owned() }
    }

    pub fn path(&self) -> (r: &str)
        ensures
            r@ == self.path_view(),
    {
        self.path.as_str()
    }
}

/// The non-blank lines of `pieces`, trimmed, in order.
pub open spec fn nonblank_trimmed(pieces: Seq<Seq<char>>) -> Seq<Seq<char>>
    decreases pieces.len(),
{
    if pieces.len() == 0 {
        seq![]
    } else {
        let rest = nonblank_trimmed(pieces.drop_last());
        if trim(pieces.last()).len() > 0 {
            rest.push(trim(pieces.last()))
        } else {
            rest
        }
    }
}

/// The log's lines (`str::lines`), trimmed, blank ones dropped.
pub open spec fn log_lines(raw: Seq<char>) -> Seq<Seq<char>> {
    nonblank_trimmed(split_char(raw, '\n'))
}

/// The last `limit` of the log's non-blank lines, trimmed.
pub open spec fn recent_lines(raw: Seq<char>, limit: nat) -> Seq<Seq<char>> {
    let all = log_lines(raw);
    if all.len() > limit {
        all.skip(all.len() - limit)
    } else {
        all
    }
}

/// The last `limit` non-blank lines of the log text `raw`, trimmed.
pub fn recent_log_lines(raw: &str, limit: usize) -> (r: Vec<String>)
    ensures
        r@.map_values(|s: String| s@) == recent_lines(raw@, limit as nat),
{
    let c = chars_of(raw);
    let pieces = split_on_char(&c, '\n');
    let ghost pv = pieces@.map_values(|w: Vec<char>| w@);
    let mut entries: Vec<Vec<char>> = Vec::new();
    let mut i: usize = 0;
    while i < pieces.len()
        invariant
            i <= pieces.len(),
            pv == pieces@.map_values(|w: Vec<char>| w@),
            entries@.map_values(|w: Vec<char>| w@) == nonblank_trimmed(pv.take(i as int)),
        decreases pieces.len() - i,
    {
        assert(pv.take(i + 1).drop_last() =~= pv.take(i as int));
        assert(pv.take(i + 1).last() == pieces@[i as int]@);
        let t = trim_chars(&pieces[i]);
        if t.len() > 0 {
            let ghost before = entries@.map_values(|w: Vec<char>| w@);
            entries.push(t);
            assert(entries@.map_values(|w: Vec<char>| w@) =~= before.push(trim(pieces@[i as int]@)));
        }
        i = i + 1;
    }
    assert(pv.take(pieces.len() as int) =~= pv);
    let ghost all = entries@.map_values(|w: Vec<char>| w@);
    let start = if entries.len() > limit {
        entries.len() - limit
    } else {
        0
    };
    let mut r: Vec<String> = Vec::new();
    let mut k = start;
    while k < entries.len()
        invariant
            start <= k <= entries.len(),
            all == entries@.map_values(|w: Vec<char>| w@),
            r@.map_values(|s: String| s@) == all.subrange(start as int, k as int),
        decreases entries.len() - k,
    {
        let ghost before = r@.map_values(|s: String| s@);
        r.push(string_of(&entries[k]));
        assert(r@.map_values(|s: String| s@) =~= before.push(all[k as int]));
        assert(all.subrange(start as int, k + 1) =~= all.subrange(start as int, k as int).push(all[k as int]));
        k = k + 1;
    }
    assert(all.subrange(start as int, entries.len() as int) =~= recent_lines(raw@, limit as nat));
    r
}

} // verus!
