//! Driving a pending buy through the game's auction windows: what to do on
//! each tick for one account, and how a pending buy's timers move after a
//! click.  Times are milliseconds of a monotonic clock.
use vstd::prelude::*;
use crate::gui_window::{
    bed_slot, confirm_purchase, is_bed_action_slot, is_confirm_purchase_window, is_live_buy_window,
    live_buy_window, WindowView,
};
use crate::text::{chars_of, contains, contains_chars, is_ascii_digit, lower_chars, lower_seq, string_of};

verus! {

/// How long a buy retries without a window before trying again.
pub const MARKET_STEP_RETRY_INTERVAL_MS: u64 = 5000;
/// How long a bed window may be spam-clicked.
pub const BED_SPAM_WINDOW_TIMEOUT_MS: u64 = 5000;
/// How many timed bed clicks are made before the window is cleaned up.
pub const MAX_TIMED_BED_CLICKS: u8 = 5;
/// The pause between two timed bed clicks.
pub const TIMED_BED_CLICK_DELAY_MS: u64 = 3;
/// How long after the last timed bed click the window is closed.
pub const TIMED_BED_CLEANUP_TIMEOUT_MS: u64 = 5000;
/// The pause between two clicks on the buy button.
pub const BUY_ACTION_RETRY_DELAY_MS: u64 = 55;
/// How long a clicked buy button may go without reaching the confirmation.
pub const BUY_ACTION_CLEANUP_TIMEOUT_MS: u64 = 5000;
/// How long to wait for the window to show a price before refusing.
pub const LIVE_BUY_MISSING_PRICE_WAIT_TIMEOUT_MS: u64 = 650;

/// A buy that has been asked for and not finished yet.
#[derive(Clone, Debug)]
pub struct PendingLiveBuy {
    pub auction_id: String,
    pub created_at: u64,
    pub click_at: Option<u64>,
    pub bed_spam: bool,
    pub bed_click_delay_ms: u64,
    pub bed_spam_until: Option<u64>,
    pub timed_bed_clicks: u8,
    pub timed_bed_cleanup_at: Option<u64>,
    pub action_clicks: u8,
    pub action_clicked_at: Option<u64>,
    pub last_click: Option<u64>,
    pub last_attempt: Option<u64>,
}

/// What the buy workflow asks for next in the current window.
#[derive(Clone, Copy, Debug, PartialEq, Eq, Structural)]
pub enum StepKind {
    ClickSlot(usize),
    CloseWindow,
    Noop,
    Other,
}

/// The workflow's next step: what to do, and whether it completes the
/// current stage.
#[derive(Clone, Copy, Debug, PartialEq, Eq, Structural)]
pub struct BuyStep {
    pub kind: StepKind,
    pub done: bool,
}

/// What checking the window's visible price against the buy found.
#[derive(Clone, Debug)]
pub enum PriceCheck {
    Safe,
    MissingVisiblePrice,
    Unsafe(String),
}

/// Why a pending buy's window is closed.
#[derive(Clone, Copy, Debug, PartialEq, Eq, Structural)]
pub enum CloseReason {
    BedSpamCleanup,
    TimedBedCleanup,
    ActionCleanup,
}

/// What to do with an account's pending buy on this tick.
#[derive(Clone, Copy, Debug, PartialEq, Eq, Structural)]
pub enum LiveBuyDecision {
    /// Forget the pending buy.
    RemovePending,
    /// Do nothing this tick.
    Wait,
    /// Close a window that has nothing to do with the buy, forget the
    /// cached window and record an attempt.
    CloseUnrelatedWindow,
    /// Refuse the buy because of the window's price: tell the operator why
    /// (see `price_refusal_message`), close the window and forget the buy.
    BlockUnsafePrice,
    /// Close the buy's window and forget the buy.
    CloseWindow(CloseReason),
    /// Carry out the workflow's step.
    Execute,
}

/// Everything one tick's decision reads.
#[derive(Clone, Debug)]
pub struct LiveBuyTick {
    /// The account is running.
    pub running: bool,
    /// The account may act on the market.
    pub market_ready: bool,
    pub pending: PendingLiveBuy,
    /// The cached open window, if any.
    pub window: Option<WindowView>,
    /// When the cached window arrived.
    pub window_received_at: Option<u64>,
    pub now: u64,
    /// The workflow's next step for the window the buy sees.
    pub step: BuyStep,
    /// The price check of the window the buy sees, where there is one.
    pub price_check: Option<PriceCheck>,
}

/// Milliseconds from `since` to `now`, zero when `since` is later.
pub open spec fn elapsed(since: u64, now: u64) -> int {
    if now >= since {
        now - since
    } else {
        0
    }
}

/// The window the buy sees: the cached one when it arrived after the buy
/// was created.
pub open spec fn fresh_window(t: LiveBuyTick) -> Option<WindowView> {
    match t.window_received_at {
        Some(at) if at > t.pending.created_at => t.window,
        _ => None,
    }
}

/// The text reported for a refused price.
pub open spec fn price_refusal(c: PriceCheck) -> Seq<char> {
    match c {
        PriceCheck::Unsafe(reason) => reason@,
        _ => "no visible buy price was found in the auction window"@,
    }
}

/// `at` is set and has been reached by `now`.
pub open spec fn reached(at: Option<u64>, now: u64) -> bool {
    match at {
        Some(x) => x <= now,
        None => false,
    }
}

/// `since` is set and less than `within` milliseconds ago.
pub open spec fn recent(since: Option<u64>, now: u64, within: u64) -> bool {
    match since {
        Some(x) => elapsed(x, now) < within,
        None => false,
    }
}

/// `since` is set and at least `after` milliseconds ago.
pub open spec fn overdue(since: Option<u64>, now: u64, after: u64) -> bool {
    match since {
        Some(x) => elapsed(x, now) >= after,
        None => false,
    }
}

/// The window holds a price that the buy must not accept.
pub open spec fn price_refused(c: Option<PriceCheck>) -> bool {
    match c {
        Some(PriceCheck::Safe) => false,
        Some(_) => true,
        None => false,
    }
}

/// The steps taken once the workflow asks for a click: in this order, wait
/// for the planned click time, check the price before the first click,
/// then pace or clean up bed clicks and buy-button clicks.  `None` when
/// the click goes ahead.
pub open spec fn click_decision(t: LiveBuyTick, window: Option<WindowView>, slot: usize) -> Option<LiveBuyDecision> {
    let p = t.pending;
    let bed = match window {
        Some(w) => bed_slot(w, slot),
        None => false,
    };
    let confirm = match window {
        Some(w) => confirm_purchase(w),
        None => false,
    };
    if p.click_at is Some && p.click_at->0 > t.now {
        Some(LiveBuyDecision::Wait)
    } else if p.action_clicks == 0 && !confirm && window is Some && price_refused(t.price_check) {
        if t.price_check->0 is MissingVisiblePrice && elapsed(p.created_at, t.now)
            < LIVE_BUY_MISSING_PRICE_WAIT_TIMEOUT_MS {
            Some(LiveBuyDecision::Wait)
        } else {
            Some(LiveBuyDecision::BlockUnsafePrice)
        }
    } else if bed && p.bed_spam && reached(p.bed_spam_until, t.now) {
        Some(LiveBuyDecision::CloseWindow(CloseReason::BedSpamCleanup))
    } else if bed && p.bed_spam && recent(p.last_click, t.now, p.bed_click_delay_ms) {
        Some(LiveBuyDecision::Wait)
    } else if bed && !p.bed_spam && p.timed_bed_cleanup_at is Some {
        if reached(p.timed_bed_cleanup_at, t.now) {
            Some(LiveBuyDecision::CloseWindow(CloseReason::TimedBedCleanup))
        } else {
            Some(LiveBuyDecision::Wait)
        }
    } else if bed && !p.bed_spam && recent(p.last_click, t.now, TIMED_BED_CLICK_DELAY_MS) {
        Some(LiveBuyDecision::Wait)
    } else if !bed && p.action_clicked_at is Some {
        if overdue(p.action_clicked_at, t.now, BUY_ACTION_CLEANUP_TIMEOUT_MS) {
            Some(LiveBuyDecision::CloseWindow(CloseReason::ActionCleanup))
        } else if !confirm {
            Some(LiveBuyDecision::Wait)
        } else if recent(p.last_click, t.now, BUY_ACTION_RETRY_DELAY_MS) {
            Some(LiveBuyDecision::Wait)
        } else {
            None
        }
    } else {
        None
    }
}

/// The slot the workflow asks to click, if it asks for a click.
pub open spec fn click_slot(step: BuyStep) -> Option<usize> {
    match step.kind {
        StepKind::ClickSlot(s) => Some(s),
        _ => None,
    }
}

/// The decision for one tick of an account's pending buy.
pub open spec fn live_buy_decision(t: LiveBuyTick) -> LiveBuyDecision {
    let p = t.pending;
    let window = fresh_window(t);
    if !t.running {
        LiveBuyDecision::RemovePending
    } else if !t.market_ready {
        LiveBuyDecision::Wait
    } else if window is Some && !live_buy_window(window->0) {
        LiveBuyDecision::CloseUnrelatedWindow
    } else if window is None && overdue(p.action_clicked_at, t.now, BUY_ACTION_CLEANUP_TIMEOUT_MS) {
        LiveBuyDecision::RemovePending
    } else if window is None && recent(p.last_attempt, t.now, MARKET_STEP_RETRY_INTERVAL_MS) {
        LiveBuyDecision::Wait
    } else if click_slot(t.step) is Some && click_decision(t, window, click_slot(t.step)->0) is Some {
        click_decision(t, window, click_slot(t.step)->0)->0
    } else if t.step.kind is Noop {
        LiveBuyDecision::RemovePending
    } else {
        LiveBuyDecision::Execute
    }
}

/// The message that tells the operator why the buy was refused.
pub fn price_refusal_message(c: &PriceCheck) -> (r: String)
    ensures
        r@ == price_refusal(*c),
{
    match c {
        PriceCheck::Unsafe(reason) => crate::text::string_of(&crate::text::chars_of(reason.as_str())),
        _ => "no visible buy price was found in the auction window".to_owned(),
    }
}

fn elapsed_ms(since: u64, now: u64) -> (r: u64)
    ensures
        r == elapsed(since, now),
{
    if now >= since {
        now - since
    } else {
        0
    }
}

/// The tick's decision (see `live_buy_decision`).
pub fn decide_live_buy(t: &LiveBuyTick) -> (r: LiveBuyDecision)
    ensures
        r == live_buy_decision(*t),
{
    let p = &t.pending;
    if !t.running {
        return LiveBuyDecision::RemovePending;
    }
    if !t.market_ready {
        return LiveBuyDecision::Wait;
    }
    let window: Option<&WindowView> = match t.window_received_at {
        Some(at) => if at > p.created_at {
            t.window.as_ref()
        } else {
            None
        },
        None => None,
    };
    proof {
        match fresh_window(*t) {
            Some(w) => assert(window == Some(&w)),
            None => assert(window is None),
        }
    }
    if let Some(w) = window {
        if !is_live_buy_window(w) {
            return LiveBuyDecision::CloseUnrelatedWindow;
        }
    }
    if window.is_none() {
        if let Some(at) = p.action_clicked_at {
            if elapsed_ms(at, t.now) >= BUY_ACTION_CLEANUP_TIMEOUT_MS {
                return LiveBuyDecision::RemovePending;
            }
        }
        if let Some(at) = p.last_attempt {
            if elapsed_ms(at, t.now) < MARKET_STEP_RETRY_INTERVAL_MS {
                return LiveBuyDecision::Wait;
            }
        }
    }
    if let StepKind::ClickSlot(slot) = t.step.kind {
        let bed = match window {
            Some(w) => is_bed_action_slot(w, slot),
            None => false,
        };
        let confirm = match window {
            Some(w) => is_confirm_purchase_window(w),
            None => false,
        };
        if let Some(at) = p.click_at {
            if at > t.now {
                return LiveBuyDecision::Wait;
            }
        }
        if p.action_clicks == 0 && !confirm && window.is_some() {
            match &t.price_check {
                Some(PriceCheck::Safe) => {},
                Some(PriceCheck::MissingVisiblePrice) => {
                    if elapsed_ms(p.created_at, t.now) < LIVE_BUY_MISSING_PRICE_WAIT_TIMEOUT_MS {
                        return LiveBuyDecision::Wait;
                    }
                    return LiveBuyDecision::BlockUnsafePrice;
                },
                Some(PriceCheck::Unsafe(_)) => {
                    return LiveBuyDecision::BlockUnsafePrice;
                },
                None => {},
            }
        }
        if bed && p.bed_spam {
            if let Some(until) = p.bed_spam_until {
                if until <= t.now {
                    return LiveBuyDecision::CloseWindow(CloseReason::BedSpamCleanup);
                }
            }
            if let Some(last) = p.last_click {
                if elapsed_ms(last, t.now) < p.bed_click_delay_ms {
                    return LiveBuyDecision::Wait;
                }
            }
        }
        if bed && !p.bed_spam {
            if let Some(cleanup_at) = p.timed_bed_cleanup_at {
                if cleanup_at <= t.now {
                    return LiveBuyDecision::CloseWindow(CloseReason::TimedBedCleanup);
                }
                return LiveBuyDecision::Wait;
            }
            if let Some(last) = p.last_click {
                if elapsed_ms(last, t.now) < TIMED_BED_CLICK_DELAY_MS {
                    return LiveBuyDecision::Wait;
                }
            }
        }
        if !bed {
            if let Some(clicked_at) = p.action_clicked_at {
                if elapsed_ms(clicked_at, t.now) >= BUY_ACTION_CLEANUP_TIMEOUT_MS {
                    return LiveBuyDecision::CloseWindow(CloseReason::ActionCleanup);
                }
                if !confirm {
                    return LiveBuyDecision::Wait;
                }
                if let Some(last) = p.last_click {
                    if elapsed_ms(last, t.now) < BUY_ACTION_RETRY_DELAY_MS {
                        return LiveBuyDecision::Wait;
                    }
                }
            }
        }
    }
    if let StepKind::Noop = t.step.kind {
        return LiveBuyDecision::RemovePending;
    }
    LiveBuyDecision::Execute
}

/// How a pending buy changes once a step was carried out.
#[derive(Clone, Copy, Debug, PartialEq, Eq, Structural)]
pub enum PendingUpdate {
    Remove,
    MarkBedClick,
    MarkActionClick,
    MarkAttempt,
}

/// What carrying out `step` means for the pending buy: a finished close
/// ends it, a finished bed click or buy-button click is recorded as such, a
/// finished step of another kind ends it, and an unfinished step or a
/// failed one is recorded as an attempt.
pub open spec fn update_after(step: BuyStep, bed_action: bool, succeeded: bool) -> PendingUpdate {
    if !succeeded {
        PendingUpdate::MarkAttempt
    } else if step.done && step.kind is CloseWindow {
        PendingUpdate::Remove
    } else if step.done && bed_action {
        PendingUpdate::MarkBedClick
    } else if step.done && step.kind is ClickSlot {
        PendingUpdate::MarkActionClick
    } else if step.done {
        PendingUpdate::Remove
    } else {
        PendingUpdate::MarkAttempt
    }
}

pub fn update_after_step(step: BuyStep, bed_action: bool, succeeded: bool) -> (r: PendingUpdate)
    ensures
        r == update_after(step, bed_action, succeeded),
{
    if !succeeded {
        PendingUpdate::MarkAttempt
    } else if step.done && step.kind == StepKind::CloseWindow {
        PendingUpdate::Remove
    } else if step.done && bed_action {
        PendingUpdate::MarkBedClick
    } else if step.done && matches!(step.kind, StepKind::ClickSlot(_)) {
        PendingUpdate::MarkActionClick
    } else if step.done {
        PendingUpdate::Remove
    } else {
        PendingUpdate::MarkAttempt
    }
}

/// Whether the click that `step` asks for in the buy's window lands on a bed.
pub fn step_is_bed_action(window: Option<&WindowView>, step: BuyStep) -> (r: bool)
    ensures
        r == (window matches Some(w) && step.kind matches StepKind::ClickSlot(s) && bed_slot(*w, s)),
{
    match (window, step.kind) {
        (Some(w), StepKind::ClickSlot(s)) => is_bed_action_slot(w, s),
        _ => false,
    }
}

impl PendingLiveBuy {
    /// Records an attempt at `now`.
    pub fn mark_attempt(&mut self, now: u64)
        ensures
            *final(self) == (PendingLiveBuy { last_attempt: Some(now), ..*old(self) }),
    {
        self.last_attempt = Some(now);
    }

    /// Records a bed click at `now`: a spam-clicked bed starts its spam
    /// window on the first click; a timed bed counts the click and, at the
    /// limit, schedules the window's cleanup.
    pub fn mark_bed_click(&mut self, now: u64)
        requires
            now + BED_SPAM_WINDOW_TIMEOUT_MS <= u64::MAX,
            now + TIMED_BED_CLEANUP_TIMEOUT_MS <= u64::MAX,
        ensures
            final(self).last_click == Some(now),
            final(self).last_attempt == Some(now),
            final(self).bed_spam_until == (if old(self).bed_spam && old(self).bed_spam_until is None {
                Some((now + BED_SPAM_WINDOW_TIMEOUT_MS) as u64)
            } else {
                old(self).bed_spam_until
            }),
            final(self).timed_bed_clicks == (if old(self).bed_spam {
                old(self).timed_bed_clicks as int
            } else if old(self).timed_bed_clicks < u8::MAX {
                old(self).timed_bed_clicks + 1
            } else {
                u8::MAX as int
            }),
            final(self).timed_bed_cleanup_at == (if !old(self).bed_spam && final(self).timed_bed_clicks
                >= MAX_TIMED_BED_CLICKS && old(self).timed_bed_cleanup_at is None {
                Some((now + TIMED_BED_CLEANUP_TIMEOUT_MS) as u64)
            } else {
                old(self).timed_bed_cleanup_at
            }),
            final(self).auction_id == old(self).auction_id,
            final(self).created_at == old(self).created_at,
            final(self).click_at == old(self).click_at,
            final(self).bed_spam == old(self).bed_spam,
            final(self).bed_click_delay_ms == old(self).bed_click_delay_ms,
            final(self).action_clicks == old(self).action_clicks,
            final(self).action_clicked_at == old(self).action_clicked_at,
    {
        self.last_click = Some(now);
        self.last_attempt = Some(now);
        if self.bed_spam {
            if self.bed_spam_until.is_none() {
                self.bed_spam_until = Some(now + BED_SPAM_WINDOW_TIMEOUT_MS);
            }
        } else {
            self.timed_bed_clicks = self.timed_bed_clicks.saturating_add(1);
            if self.timed_bed_clicks >= MAX_TIMED_BED_CLICKS && self.timed_bed_cleanup_at.is_none() {
                self.timed_bed_cleanup_at = Some(now + TIMED_BED_CLEANUP_TIMEOUT_MS);
            }
        }
    }

    /// Records a click on the buy button at `now`.
    pub fn mark_action_click(&mut self, now: u64)
        ensures
            final(self).action_clicks == (if old(self).action_clicks < u8::MAX {
                old(self).action_clicks + 1
            } else {
                u8::MAX as int
            }),
            final(self).action_clicked_at == (if old(self).action_clicked_at is None {
                Some(now)
            } else {
                old(self).action_clicked_at
            }),
            final(self).last_click == Some(now),
            final(self).last_attempt == Some(now),
            final(self).auction_id == old(self).auction_id,
            final(self).created_at == old(self).created_at,
            final(self).click_at == old(self).click_at,
            final(self).bed_spam == old(self).bed_spam,
            final(self).bed_click_delay_ms == old(self).bed_click_delay_ms,
            final(self).bed_spam_until == old(self).bed_spam_until,
            final(self).timed_bed_clicks == old(self).timed_bed_clicks,
            final(self).timed_bed_cleanup_at == old(self).timed_bed_cleanup_at,
    {
        self.action_clicks = self.action_clicks.saturating_add(1);
        if self.action_clicked_at.is_none() {
            self.action_clicked_at = Some(now);
        }
        self.last_click = Some(now);
        self.last_attempt = Some(now);
    }
}

/// A pending buy of an account that no longer runs is always dropped.
pub proof fn lemma_stopped_account_drops_buy(t: LiveBuyTick)
    requires
        !t.running,
    ensures
        live_buy_decision(t) == LiveBuyDecision::RemovePending,
{
}

/// A window that does not belong to the buy is always closed before
/// anything is clicked.
pub proof fn lemma_unrelated_window_closed(t: LiveBuyTick)
    requires
        t.running,
        t.market_ready,
        fresh_window(t) matches Some(w) && !live_buy_window(w),
    ensures
        live_buy_decision(t) == LiveBuyDecision::CloseUnrelatedWindow,
{
}

/// A click is never made before the buy's planned click time.
pub proof fn lemma_never_clicks_early(t: LiveBuyTick)
    requires
        live_buy_decision(t) == LiveBuyDecision::Execute,
        click_slot(t.step) is Some,
    ensures
        !(t.pending.click_at matches Some(at) && at > t.now),
{
}

/// The first click on a buy window that is not yet the purchase
/// confirmation needs a window price that passed the check.
pub proof fn lemma_first_click_needs_safe_price(t: LiveBuyTick)
    requires
        live_buy_decision(t) == LiveBuyDecision::Execute,
        click_slot(t.step) is Some,
        t.pending.action_clicks == 0,
        fresh_window(t) matches Some(w) && !confirm_purchase(w),
    ensures
        !price_refused(t.price_check),
{
}

/// The text after the first colon of `s`, if it has one.
pub open spec fn after_colon(s: Seq<char>) -> Option<Seq<char>>
    decreases s.len(),
{
    if s.len() == 0 {
        None
    } else if s[0] == ':' {
        Some(s.drop_first())
    } else {
        after_colon(s.drop_first())
    }
}

/// The number text of a window line that announces the buy price: a line
/// that mentions `buy it now`, `starting bid`, or both `price` and `coins`
/// (in any case); the number is what follows its first colon, or the whole
/// line without one.
pub open spec fn price_line_value(line: Seq<char>) -> Option<Seq<char>> {
    let lower = lower_seq(line);
    if contains(lower, "buy it now"@) || contains(lower, "starting bid"@) || (contains(lower, "price"@)
        && contains(lower, "coins"@)) {
        Some(
            match after_colon(line) {
                Some(v) => v,
                None => line,
            },
        )
    } else {
        None
    }
}

pub fn text_after_colon(v: &Vec<char>) -> (r: Option<Vec<char>>)
    ensures
        match after_colon(v@) {
            Some(a) => r matches Some(w) && w@ == a,
            None => r is None,
        },
{
    let mut i: usize = 0;
    assert(v@.skip(0) =~= v@);
    while i < v.len()
        invariant
            i <= v.len(),
            after_colon(v@) == after_colon(v@.skip(i as int)),
        decreases v.len() - i,
    {
        proof {
            assert(v@.skip(i as int)[0] == v@[i as int]);
            assert(v@.skip(i as int).drop_first() =~= v@.skip(i + 1));
        }
        if v[i] == ':' {
            let mut w: Vec<char> = Vec::new();
            let mut k: usize = i + 1;
            while k < v.len()
                invariant
                    i + 1 <= k <= v.len(),
                    w@ == v@.subrange(i + 1, k as int),
                decreases v.len() - k,
            {
                w.push(v[k]);
                assert(w@ =~= v@.subrange(i + 1, k + 1));
                k = k + 1;
            }
            assert(w@ =~= v@.skip(i + 1));
            return Some(w);
        }
        i = i + 1;
    }
    assert(v@.skip(i as int).len() == 0);
    None
}

/// The number text of a price line (see `price_line_value`).
pub fn visible_price_line_value(line: &str) -> (r: Option<String>)
    ensures
        match price_line_value(line@) {
            Some(v) => r matches Some(t) && t@ == v,
            None => r is None,
        },
{
    let c = chars_of(line);
    let lower = lower_chars(&c);
    let marked = contains_chars(&lower, &chars_of("buy it now")) || contains_chars(&lower, &chars_of("starting bid"))
        || (contains_chars(&lower, &chars_of("price")) && contains_chars(&lower, &chars_of("coins")));
    if !marked {
        return None;
    }
    match text_after_colon(&c) {
        Some(w) => Some(string_of(&w)),
        None => Some(string_of(&c)),
    }
}

/// A buy button's line that can hold a price on its own: it mentions
/// `coins` (in any case) and holds a digit.
pub open spec fn standalone_price_line(line: Seq<char>) -> bool {
    contains(lower_seq(line), "coins"@) && exists|i: int| 0 <= i < line.len() && is_ascii_digit(#[trigger] line[i])
}

pub fn is_standalone_price_line(line: &str) -> (r: bool)
    ensures
        r == standalone_price_line(line@),
{
    let c = chars_of(line);
    if !contains_chars(&lower_chars(&c), &chars_of("coins")) {
        return false;
    }
    let mut i: usize = 0;
    while i < c.len()
        invariant
            i <= c.len(),
            c@ == line@,
            contains(lower_seq(line@), "coins"@),
            forall|j: int| 0 <= j < i ==> !is_ascii_digit(#[trigger] c@[j]),
        decreases c.len() - i,
    {
        if '0' <= c[i] && c[i] <= '9' {
            assert(is_ascii_digit(c@[i as int]));
            return true;
        }
        i = i + 1;
    }
    false
}

} // verus!
