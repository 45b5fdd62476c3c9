//! Rotating an account between flipping and resting on a fixed schedule,
//! and the account lists and operator messages that go with it.
//! Durations are in milliseconds.
use vstd::prelude::*;
use crate::live_buy::after_colon;
use crate::text::{
    chars_of, concat_chars, decimal, decimal_chars, lower_chars, lower_seq, str_equal, string_of, trim,
    trim_chars,
};

verus! {

/// What an account does during a leg of its schedule.
#[derive(Clone, Copy, Debug, PartialEq, Eq, Structural)]
pub enum AutoRotatePhase {
    Rest,
    Flip,
}

/// One leg of a schedule.
#[derive(Clone, Copy, Debug, PartialEq, Eq, Structural)]
pub struct AutoRotateLeg {
    pub phase: AutoRotatePhase,
    pub duration_ms: u64,
}

/// Starting or stopping an account.
#[derive(Clone, Copy, Debug, PartialEq, Eq, Structural)]
pub enum ScheduledAccountAction {
    Start,
    Stop,
}

/// An account's two-leg rotation.
#[derive(Clone, Debug)]
pub struct AutoRotateSchedule {
    pub account: String,
    pub first: AutoRotateLeg,
    pub second: AutoRotateLeg,
}

/// One step of the rotation: wait `delay_ms`, act, and the next step
/// comes `next_delay_ms` later.
#[derive(Clone, Copy, Debug, PartialEq, Eq, Structural)]
pub struct RotationStep {
    pub delay_ms: u64,
    pub action: ScheduledAccountAction,
    pub next_delay_ms: u64,
}

impl AutoRotateSchedule {
    pub open spec fn rests_first(&self) -> bool {
        self.first.phase == AutoRotatePhase::Rest
    }

    /// Whether the account starts by resting.
    pub fn rest_first(&self) -> (r: bool)
        ensures
            r == self.rests_first(),
    {
        self.first.phase == AutoRotatePhase::Rest
    }

    /// The two steps that repeat forever.  An account that rests first
    /// starts after the rest and stops after flipping; one that flips
    /// first stops after flipping and starts again after resting.
    pub fn action_steps(&self) -> (r: [RotationStep; 2])
        ensures
            self.rests_first() ==> r@ == seq![
                RotationStep { delay_ms: self.second.duration_ms, action: ScheduledAccountAction::Start, next_delay_ms: self.first.duration_ms },
                RotationStep { delay_ms: self.first.duration_ms, action: ScheduledAccountAction::Stop, next_delay_ms: self.second.duration_ms },
            ],
            !self.rests_first() ==> r@ == seq![
                RotationStep { delay_ms: self.second.duration_ms, action: ScheduledAccountAction::Stop, next_delay_ms: self.first.duration_ms },
                RotationStep { delay_ms: self.first.duration_ms, action: ScheduledAccountAction::Start, next_delay_ms: self.second.duration_ms },
            ],
    {
        let r = if self.rest_first() {
            [
                RotationStep { delay_ms: self.second.duration_ms, action: ScheduledAccountAction::Start, next_delay_ms: self.first.duration_ms },
                RotationStep { delay_ms: self.first.duration_ms, action: ScheduledAccountAction::Stop, next_delay_ms: self.second.duration_ms },
            ]
        } else {
            [
                RotationStep { delay_ms: self.second.duration_ms, action: ScheduledAccountAction::Stop, next_delay_ms: self.first.duration_ms },
                RotationStep { delay_ms: self.first.duration_ms, action: ScheduledAccountAction::Start, next_delay_ms: self.second.duration_ms },
            ]
        };
        assert(r@ =~= seq![r[0], r[1]]);
        r
    }
}

/// The accounts of `schedules` that rest first.
pub open spec fn rest_first_accounts(schedules: Seq<AutoRotateSchedule>) -> Set<Seq<char>> {
    Set::new(|a: Seq<char>| exists|i: int| 0 <= i < schedules.len() && #[trigger] schedules[i].account@ == a && schedules[i].rests_first())
}

/// The startup accounts without those whose schedule rests first, in order.
pub open spec fn startup_with_rotation(startup: Seq<Seq<char>>, rest_first: Set<Seq<char>>) -> Seq<Seq<char>>
    decreases startup.len(),
{
    if startup.len() == 0 {
        seq![]
    } else {
        let rest = startup_with_rotation(startup.drop_last(), rest_first);
        if rest_first.contains(startup.last()) {
            rest
        } else {
            rest.push(startup.last())
        }
    }
}

fn rests_first_listed(schedules: &Vec<AutoRotateSchedule>, account: &str) -> (r: bool)
    ensures
        r == rest_first_accounts(schedules@).contains(account@),
{
    let mut i: usize = 0;
    while i < schedules.len()
        invariant
            i <= schedules.len(),
            forall|j: int| 0 <= j < i ==> !(#[trigger] schedules@[j].account@ == account@ && schedules@[j].rests_first()),
        decreases schedules.len() - i,
    {
        if schedules[i].rest_first() && str_equal(schedules[i].account.as_str(), account) {
            return true;
        }
        i = i + 1;
    }
    false
}

/// The accounts that start right away: the startup accounts without those
/// that rest first.
pub fn startup_runtime_accounts_with_rotation(startup: &Vec<String>, schedules: &Vec<AutoRotateSchedule>) -> (r: Vec<String>)
    ensures
        r@.map_values(|s: String| s@) == startup_with_rotation(
            startup@.map_values(|s: String| s@),
            rest_first_accounts(schedules@),
        ),
{
    let ghost sv = startup@.map_values(|s: String| s@);
    let ghost rf = rest_first_accounts(schedules@);
    let mut r: Vec<String> = Vec::new();
    let mut i: usize = 0;
    while i < startup.len()
        invariant
            i <= startup.len(),
            sv == startup@.map_values(|s: String| s@),
            rf == rest_first_accounts(schedules@),
            r@.map_values(|s: String| s@) == startup_with_rotation(sv.take(i as int), rf),
        decreases startup.len() - i,
    {
        assert(sv.take(i + 1).drop_last() =~= sv.take(i as int));
        assert(sv.take(i + 1).last() == startup@[i as int]@);
        if !rests_first_listed(schedules, startup[i].as_str()) {
            let ghost before = r@.map_values(|s: String| s@);
            r.push(string_of(&chars_of(startup[i].as_str())));
            assert(r@.map_values(|s: String| s@) =~= before.push(startup@[i as int]@));
        }
        i = i + 1;
    }
    assert(sv.take(startup.len() as int) =~= sv);
    r
}

/// The two legs of a schedule written as `first:second`, split at the
/// first colon.
pub fn auto_rotate_legs(value: &str) -> (r: Option<(String, String)>)
    ensures
        r is None <==> !value@.contains(':'),
        r matches Some((a, b)) ==> exists|k: int| 0 <= k < value@.len() && value@[k] == ':' && (forall|j: int| 0 <= j < k ==> value@[j] != ':') && a@ == value@.take(k) && b@ == value@.skip(k + 1),
{
    let c = chars_of(value);
    let mut i: usize = 0;
    while i < c.len()
        invariant
            i <= c.len(),
            c@ == value@,
            forall|j: int| 0 <= j < i ==> c@[j] != ':',
        decreases c.len() - i,
    {
        if c[i] == ':' {
            assert(value@[i as int] == ':');
            let a = crate::config_patch::slice_chars(&c, 0, i);
            let b = crate::config_patch::slice_chars(&c, i + 1, c.len());
            assert(a@ =~= c@.take(i as int));
            assert(b@ =~= c@.skip(i + 1));
            return Some((string_of(&a), string_of(&b)));
        }
        i = i + 1;
    }
    assert(!value@.contains(':'));
    None
}

/// The message sent while an account rests before its first start; `at`
/// is the Unix time, in seconds, of that start.
pub fn rest_first_waiting_message(account: &str, at: u64) -> (r: String)
    ensures
        r@ == "`"@ + account@ + "` rests first and will log on in <t:"@ + decimal(at as nat) + ":R>."@,
{
    let mut out = chars_of("`");
    out = concat_chars(&out, &chars_of(account));
    out = concat_chars(&out, &chars_of("` rests first and will log on in <t:"));
    out = concat_chars(&out, &decimal_chars(at));
    out = concat_chars(&out, &chars_of(":R>."));
    string_of(&out)
}

/// The title and body sent after a rotation step; `at` is the Unix time,
/// in seconds, of the next step.
pub fn rotation_action_message(account: &str, action: ScheduledAccountAction, at: u64) -> (r: (String, String))
    ensures
        action == ScheduledAccountAction::Start ==> r.0@ == "Started flipping"@ && r.1@ == "Logged in as `"@
            + account@ + "`.\nWill log off in <t:"@ + decimal(at as nat) + ":R>."@,
        action == ScheduledAccountAction::Stop ==> r.0@ == "Killed bot"@ && r.1@ == "Stopped `"@ + account@
            + "`.\nWill log on in <t:"@ + decimal(at as nat) + ":R>."@,
{
    let (title, head, tail): (&str, &str, &str) = match action {
        ScheduledAccountAction::Start => ("Started flipping", "Logged in as `", "`.\nWill log off in <t:"),
        ScheduledAccountAction::Stop => ("Killed bot", "Stopped `", "`.\nWill log on in <t:"),
    };
    let mut out = chars_of(head);
    out = concat_chars(&out, &chars_of(account));
    out = concat_chars(&out, &chars_of(tail));
    out = concat_chars(&out, &decimal_chars(at));
    out = concat_chars(&out, &chars_of(":R>."));
    (title.to_owned(), string_of(&out))
}


/// What the runtime is told to do when a scheduled account action comes due.
#[derive(Clone, Debug)]
pub enum ScheduledDirective {
    /// Start the account.
    StartAccount(String),
    /// Stop the account.
    StopAccount(String),
}

/// The directive for a scheduled action once its delay has passed: none
/// after the runtime shut down or while it is halted (stop all).
pub fn scheduled_directive(account: &str, action: ScheduledAccountAction, shutdown: bool, halted: bool) -> (r: Option<ScheduledDirective>)
    ensures
        (shutdown || halted) ==> r is None,
        !(shutdown || halted) && action == ScheduledAccountAction::Start ==> (r matches Some(ScheduledDirective::StartAccount(a)) && a@ == account@),
        !(shutdown || halted) && action == ScheduledAccountAction::Stop ==> (r matches Some(ScheduledDirective::StopAccount(a)) && a@ == account@),
{
    if shutdown || halted {
        return None;
    }
    let a = string_of(&chars_of(account));
    match action {
        ScheduledAccountAction::Start => Some(ScheduledDirective::StartAccount(a)),
        ScheduledAccountAction::Stop => Some(ScheduledDirective::StopAccount(a)),
    }
}


pub open spec fn is_leg_letter(c: char) -> bool {
    c == 'r' || c == 'f'
}

pub open spec fn trim_letters_start(s: Seq<char>) -> Seq<char>
    decreases s.len(),
{
    if s.len() > 0 && is_leg_letter(s[0]) {
        trim_letters_start(s.drop_first())
    } else {
        s
    }
}

pub open spec fn trim_letters_end(s: Seq<char>) -> Seq<char>
    decreases s.len(),
{
    if s.len() > 0 && is_leg_letter(s.last()) {
        trim_letters_end(s.drop_last())
    } else {
        s
    }
}

/// A leg of an `autoRotate` value (`r2.5` or `1.5f`): resting when it
/// mentions `r`, else flipping when it mentions `f` (after trimming and
/// lower-casing); and the text of its number of hours, which is what is
/// left once the letters at either end and the surrounding whitespace are
/// trimmed.  `None` when it mentions neither letter.
pub open spec fn leg_parts(value: Seq<char>) -> Option<(AutoRotatePhase, Seq<char>)> {
    let lower = lower_seq(trim(value));
    let number = trim(trim_letters_end(trim_letters_start(lower)));
    if lower.contains('r') {
        Some((AutoRotatePhase::Rest, number))
    } else if lower.contains('f') {
        Some((AutoRotatePhase::Flip, number))
    } else {
        None
    }
}

fn trim_letters(v: &Vec<char>) -> (r: Vec<char>)
    ensures
        r@ == trim_letters_end(trim_letters_start(v@)),
{
    let n = v.len();
    let mut i: usize = 0;
    assert(v@.skip(0) =~= v@);
    while i < n && (v[i] == 'r' || v[i] == 'f')
        invariant
            i <= n,
            n == v.len(),
            trim_letters_start(v@) == trim_letters_start(v@.skip(i as int)),
        decreases n - i,
    {
        assert(v@.skip(i as int)[0] == v@[i as int]);
        assert(v@.skip(i as int).drop_first() =~= v@.skip(i + 1));
        i = i + 1;
    }
    let ghost s = v@.skip(i as int);
    proof {
        if i < n {
            assert(s[0] == v@[i as int]);
        }
        assert(trim_letters_start(v@) == s);
    }
    let mut j: usize = n;
    assert(s.take((j - i) as int) =~= s);
    while j > i && (v[j - 1] == 'r' || v[j - 1] == 'f')
        invariant
            i <= j <= n,
            n == v.len(),
            s == v@.skip(i as int),
            trim_letters_end(s) == trim_letters_end(s.take((j - i) as int)),
        decreases j - i,
    {
        let ghost t = s.take((j - i) as int);
        assert(t.last() == v@[j - 1]);
        assert(t.drop_last() =~= s.take((j - 1 - i) as int));
        j = j - 1;
    }
    let mut r: Vec<char> = Vec::new();
    let mut k: usize = i;
    while k < j
        invariant
            i <= k <= j <= n,
            n == v.len(),
            r@ == v@.subrange(i as int, k as int),
        decreases j - k,
    {
        r.push(v[k]);
        assert(r@ =~= v@.subrange(i as int, k + 1));
        k = k + 1;
    }
    proof {
        let t = s.take((j - i) as int);
        assert(t =~= v@.subrange(i as int, j as int));
        if j > i {
            assert(t.last() == v@[j - 1]);
        }
        assert(trim_letters_end(t) == t);
    }
    r
}

/// Splits a leg of an `autoRotate` value into its phase and the text of
/// its hours (see `leg_parts`); reading the hours is left to the caller.
pub fn auto_rotate_leg_parts(value: &str) -> (r: Option<(AutoRotatePhase, String)>)
    ensures
        match leg_parts(value@) {
            None => r is None,
            Some((phase, number)) => r matches Some((p, t)) && p == phase && t@ == number,
        },
{
    let lower = lower_chars(&trim_chars(&chars_of(value)));
    let mut has_r = false;
    let mut has_f = false;
    let mut i: usize = 0;
    while i < lower.len()
        invariant
            i <= lower.len(),
            has_r == lower@.take(i as int).contains('r'),
            has_f == lower@.take(i as int).contains('f'),
        decreases lower.len() - i,
    {
        proof {
            let a = lower@.take(i as int);
            let b = lower@.take(i + 1);
            assert(b =~= a.push(lower@[i as int]));
            assert forall|c: char| b.contains(c) <==> (a.contains(c) || c == lower@[i as int]) by {
                if b.contains(c) {
                    let j = choose|j: int| 0 <= j < b.len() && b[j] == c;
                    if j < a.len() {
                        assert(a[j] == c);
                    }
                }
                if a.contains(c) {
                    let j = choose|j: int| 0 <= j < a.len() && a[j] == c;
                    assert(b[j] == c);
                }
                if c == lower@[i as int] {
                    assert(b[i as int] == c);
                }
            }
        }
        if lower[i] == 'r' {
            has_r = true;
        }
        if lower[i] == 'f' {
            has_f = true;
        }
        i = i + 1;
    }
    assert(lower@.take(lower.len() as int) =~= lower@);
    let phase = if has_r {
        AutoRotatePhase::Rest
    } else if has_f {
        AutoRotatePhase::Flip
    } else {
        return None;
    };
    let number = trim_chars(&trim_letters(&lower));
    Some((phase, string_of(&number)))
}

/// The two legs of an `autoRotate` value, split at its first colon, each
/// as `leg_parts` reads it; `None` without a colon or where either leg has
/// no phase.
pub open spec fn schedule_parts(value: Seq<char>) -> Option<((AutoRotatePhase, Seq<char>), (AutoRotatePhase, Seq<char>))> {
    match after_colon(value) {
        None => None,
        Some(second) => {
            let first = value.take(value.len() - second.len() - 1);
            match (leg_parts(first), leg_parts(second)) {
                (Some(a), Some(b)) => Some((a, b)),
                _ => None,
            }
        },
    }
}

/// Splits an `autoRotate` value into its two legs (see `schedule_parts`);
/// reading the hours of each is left to the caller.
pub fn auto_rotate_schedule_parts(value: &str) -> (r: Option<((AutoRotatePhase, String), (AutoRotatePhase, String))>)
    ensures
        match schedule_parts(value@) {
            None => r is None,
            Some(((p1, n1), (p2, n2))) => r matches Some(((q1, t1), (q2, t2))) && q1 == p1 && t1@ == n1
                && q2 == p2 && t2@ == n2,
        },
{
    let v = chars_of(value);
    let mut i: usize = 0;
    assert(v@.skip(0) =~= v@);
    while i < v.len()
        invariant
            i <= v.len(),
            v@ == value@,
            after_colon(v@) == after_colon(v@.skip(i as int)),
        decreases v.len() - i,
    {
        assert(v@.skip(i as int)[0] == v@[i as int]);
        assert(v@.skip(i as int).drop_first() =~= v@.skip(i + 1));
        if v[i] == ':' {
            let mut first: Vec<char> = Vec::new();
            let mut k: usize = 0;
            while k < i
                invariant
                    k <= i < v.len(),
                    first@ == v@.take(k as int),
                decreases i - k,
            {
                first.push(v[k]);
                assert(v@.take(k + 1) =~= v@.take(k as int).push(v@[k as int]));
                k = k + 1;
            }
            let mut second: Vec<char> = Vec::new();
            let mut m: usize = i + 1;
            while m < v.len()
                invariant
                    i < m <= v.len(),
                    second@ == v@.subrange(i + 1, m as int),
                decreases v.len() - m,
            {
                second.push(v[m]);
                assert(v@.subrange(i + 1, m + 1) =~= v@.subrange(i + 1, m as int).push(v@[m as int]));
                m = m + 1;
            }
            assert(second@ =~= v@.skip(i + 1));
            assert(after_colon(v@) == Some(second@));
            assert(first@ =~= v@.take(v@.len() - second@.len() - 1));
            let a = auto_rotate_leg_parts(string_of(&first).as_str());
            let b = auto_rotate_leg_parts(string_of(&second).as_str());
            return match (a, b) {
                (Some(x), Some(y)) => Some((x, y)),
                _ => None,
            };
        }
        i = i + 1;
    }
    None
}

/// Some schedule of `account` starts with a rest.
pub open spec fn starts_resting(schedules: Seq<AutoRotateSchedule>, account: Seq<char>) -> bool {
    exists|i: int| 0 <= i < schedules.len() && (#[trigger] schedules[i]).account@ == account
        && schedules[i].first.phase == AutoRotatePhase::Rest
}

proof fn lemma_rotation_members(startup: Seq<Seq<char>>, schedules: Seq<AutoRotateSchedule>)
    ensures
        forall|x: Seq<char>| startup_with_rotation(startup, rest_first_accounts(schedules)).contains(x) <==> (
        startup.contains(x) && !starts_resting(schedules, x)),
        startup_with_rotation(startup, rest_first_accounts(schedules)).len() <= startup.len(),
    decreases startup.len(),
{
    let rf = rest_first_accounts(schedules);
    assert forall|x: Seq<char>| rf.contains(x) <==> starts_resting(schedules, x) by {
        if rf.contains(x) {
            let i = choose|i: int| 0 <= i < schedules.len() && #[trigger] schedules[i].account@ == x && schedules[i].rests_first();
            assert((#[trigger] schedules[i]).account@ == x);
        }
        if starts_resting(schedules, x) {
            let i = choose|i: int| 0 <= i < schedules.len() && (#[trigger] schedules[i]).account@ == x
                && schedules[i].first.phase == AutoRotatePhase::Rest;
            assert(schedules[i].account@ == x && schedules[i].rests_first());
        }
    }
    if startup.len() > 0 {
        lemma_rotation_members(startup.drop_last(), schedules);
        let rest = startup_with_rotation(startup.drop_last(), rf);
        assert forall|x: Seq<char>| startup_with_rotation(startup, rf).contains(x) <==> (startup.contains(x)
            && !starts_resting(schedules, x)) by {
            if startup.contains(x) {
                let k = choose|k: int| 0 <= k < startup.len() && startup[k] == x;
                if k < startup.len() - 1 {
                    assert(startup.drop_last()[k] == x);
                }
            }
            if startup.drop_last().contains(x) {
                let k = choose|k: int| 0 <= k < startup.drop_last().len() && startup.drop_last()[k] == x;
                assert(startup[k] == x);
            }
            if !rf.contains(startup.last()) {
                assert(rest.push(startup.last())[rest.len() as int] == startup.last());
                if rest.push(startup.last()).contains(x) {
                    let k = choose|k: int| 0 <= k < rest.push(startup.last()).len() && rest.push(startup.last())[k] == x;
                    if k < rest.len() {
                        assert(rest[k] == x);
                    }
                }
                if rest.contains(x) {
                    let k = choose|k: int| 0 <= k < rest.len() && rest[k] == x;
                    assert(rest.push(startup.last())[k] == x);
                }
            }
            assert(startup[startup.len() - 1] == startup.last());
        }
    }
}

/// Only accounts whose schedule starts with a rest wait at startup: the
/// accounts that start right away are exactly the startup accounts without
/// a rest-first schedule, each taken from the startup list; when no
/// schedule rests first, every startup account starts, in order.
pub proof fn lemma_only_rest_first_accounts_wait(startup: Seq<Seq<char>>, schedules: Seq<AutoRotateSchedule>)
    ensures
        forall|x: Seq<char>| startup_with_rotation(startup, rest_first_accounts(schedules)).contains(x) <==> (
        startup.contains(x) && !starts_resting(schedules, x)),
        (forall|i: int| 0 <= i < schedules.len() ==> (#[trigger] schedules[i]).first.phase != AutoRotatePhase::Rest)
            ==> startup_with_rotation(startup, rest_first_accounts(schedules)) == startup,
    decreases startup.len(),
{
    lemma_rotation_members(startup, schedules);
    if forall|i: int| 0 <= i < schedules.len() ==> (#[trigger] schedules[i]).first.phase != AutoRotatePhase::Rest {
        if startup.len() > 0 {
            lemma_only_rest_first_accounts_wait(startup.drop_last(), schedules);
            assert(!rest_first_accounts(schedules).contains(startup.last())) by {
                if rest_first_accounts(schedules).contains(startup.last()) {
                    let i = choose|i: int| 0 <= i < schedules.len() && #[trigger] schedules[i].account@
                        == startup.last() && schedules[i].rests_first();
                    assert(schedules[i].first.phase != AutoRotatePhase::Rest);
                }
            }
            assert(startup.drop_last().push(startup.last()) =~= startup);
        }
    }
}

} // verus!
