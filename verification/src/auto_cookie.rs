//! Buying and activating a booster cookie when the active one runs low:
//! whether to look into it at all, where a decided purchase goes, and the
//! steps through the bazaar and inventory windows.  Durations are in
//! nanoseconds, instants in nanoseconds of a monotonic clock.
use vstd::prelude::*;
use crate::env_vars::{insert_sorted, str_views_of, strictly_sorted};
use crate::gui_diagnostics::{slot_text, slot_text_of};
use crate::gui_window::{WindowSlotView, WindowView};
use crate::text::{
    chars_of, concat_chars, contains, contains_chars, eq_ignore_ascii_case, eq_ignore_case, join,
    join_words, lower_chars, lower_seq, string_of,
};

verus! {

/// How long a purchase may take before it is given up.
pub const COOKIE_PURCHASE_TIMEOUT_NS: u128 = 60_000_000_000;
/// The pause between buying a cookie and activating it.
pub const COOKIE_ACTIVATION_DELAY_NS: u128 = 250_000_000;
/// How long one cookie lasts: four days.
pub const COOKIE_DURATION_NS: u128 = 345_600_000_000_000_000;
/// The longest duration that can be represented.
pub const MAX_DURATION_NS: u128 = 18_446_744_073_709_551_615_999_999_999;

/// Whether a cookie check goes ahead.
#[derive(Clone, Copy, Debug, PartialEq, Eq, Structural)]
pub enum CookieGate {
    /// A purchase is already under way, or cookies or relisting are off.
    NotApplicable,
    /// No usable threshold is configured.
    Disabled,
    /// The active cookie lasts longer than the threshold.
    EnoughTime,
    /// Look up the purse and the price and decide.
    CheckPurseAndPrice,
}

/// Whether the automatic cookie purchase applies: not while a purchase is
/// pending or when cookies or relisting are off; a threshold must be set;
/// an active cookie that lasts longer than the threshold needs nothing.
pub open spec fn gate(has_pending: bool, use_cookie: bool, relist: bool, threshold: Option<u128>, remaining: Option<u128>) -> CookieGate {
    if has_pending || !use_cookie || !relist {
        CookieGate::NotApplicable
    } else if threshold is None {
        CookieGate::Disabled
    } else if remaining is Some && remaining->0 > threshold->0 {
        CookieGate::EnoughTime
    } else {
        CookieGate::CheckPurseAndPrice
    }
}

pub fn auto_cookie_gate(has_pending: bool, use_cookie: bool, relist: bool, threshold: Option<u128>, remaining: Option<u128>) -> (r: CookieGate)
    ensures
        r == gate(has_pending, use_cookie, relist, threshold, remaining),
{
    if has_pending || !use_cookie || !relist {
        return CookieGate::NotApplicable;
    }
    let t = match threshold {
        Some(t) => t,
        None => {
            return CookieGate::Disabled;
        },
    };
    match remaining {
        Some(left) => if left > t {
            CookieGate::EnoughTime
        } else {
            CookieGate::CheckPurseAndPrice
        },
        None => CookieGate::CheckPurseAndPrice,
    }
}

/// Where a decided purchase goes.
#[derive(Clone, Copy, Debug, PartialEq, Eq, Structural)]
pub enum CookieBuyRoute {
    /// Market actions are off: record what would have been done.
    RecordDryRun,
    /// No game client for the account: skip.
    NoClient,
    /// Start the purchase in the game.
    StartPurchase,
}

pub fn cookie_buy_route(market_actions_allowed: bool, has_client: bool) -> (r: CookieBuyRoute)
    ensures
        !market_actions_allowed ==> r == CookieBuyRoute::RecordDryRun,
        market_actions_allowed && !has_client ==> r == CookieBuyRoute::NoClient,
        market_actions_allowed && has_client ==> r == CookieBuyRoute::StartPurchase,
{
    if !market_actions_allowed {
        CookieBuyRoute::RecordDryRun
    } else if !has_client {
        CookieBuyRoute::NoClient
    } else {
        CookieBuyRoute::StartPurchase
    }
}

/// Where a purchase stands.
#[derive(Clone, Copy, Debug, PartialEq, Eq, Structural)]
pub enum AutoCookiePhase {
    AwaitingBazaar,
    AwaitingAmount,
    AwaitingConfirm,
    PreparingActivation { due_at: u128 },
    AwaitingConsumeConfirm,
}

/// What to do in the open window.
#[derive(Clone, Copy, Debug, PartialEq, Eq, Structural)]
pub enum AutoCookieWindowAction {
    Click { slot: usize, next: AutoCookiePhase },
    ClickAndPrepareActivation { slot: usize, due_at: u128 },
    ClickConsume { slot: usize },
}

/// A purchase under way.
#[derive(Clone, Copy, Debug, PartialEq, Eq, Structural)]
pub struct PendingAutoCookie {
    pub started_at: u128,
    pub phase: AutoCookiePhase,
    /// The cookie time left when the purchase started.
    pub previous_duration: Option<u128>,
}

/// The step of a phase in a window where `slot` is the slot that the phase
/// looks for, if the window has one.
pub open spec fn window_step(phase: AutoCookiePhase, slot: Option<usize>, now: u128) -> Option<AutoCookieWindowAction> {
    match slot {
        None => None,
        Some(s) => match phase {
            AutoCookiePhase::AwaitingBazaar => Some(
                AutoCookieWindowAction::Click { slot: s, next: AutoCookiePhase::AwaitingAmount },
            ),
            AutoCookiePhase::AwaitingAmount => Some(
                AutoCookieWindowAction::Click { slot: s, next: AutoCookiePhase::AwaitingConfirm },
            ),
            AutoCookiePhase::AwaitingConfirm => Some(
                AutoCookieWindowAction::ClickAndPrepareActivation {
                    slot: s,
                    due_at: (now + COOKIE_ACTIVATION_DELAY_NS) as u128,
                },
            ),
            AutoCookiePhase::PreparingActivation { .. } => None,
            AutoCookiePhase::AwaitingConsumeConfirm => Some(
                AutoCookieWindowAction::ClickConsume { slot: s },
            ),
        },
    }
}

impl PendingAutoCookie {
    pub fn new(previous_duration: Option<u128>, now: u128) -> (r: Self)
        ensures
            r.started_at == now,
            r.phase == AutoCookiePhase::AwaitingBazaar,
            r.previous_duration == previous_duration,
    {
        PendingAutoCookie { started_at: now, phase: AutoCookiePhase::AwaitingBazaar, previous_duration }
    }

    /// Whether the purchase has run out of time.
    pub fn timed_out(&self, now: u128) -> (r: bool)
        ensures
            r == (now >= self.started_at && now - self.started_at >= COOKIE_PURCHASE_TIMEOUT_NS),
    {
        now >= self.started_at && now - self.started_at >= COOKIE_PURCHASE_TIMEOUT_NS
    }

    /// The step to take in the open window, given the slot that the current
    /// phase looks for.
    pub fn plan_window(&self, slot: Option<usize>, now: u128) -> (r: Option<AutoCookieWindowAction>)
        requires
            now + COOKIE_ACTIVATION_DELAY_NS <= u128::MAX,
        ensures
            r == window_step(self.phase, slot, now),
    {
        let s = match slot {
            Some(s) => s,
            None => {
                return None;
            },
        };
        match self.phase {
            AutoCookiePhase::AwaitingBazaar => Some(
                AutoCookieWindowAction::Click { slot: s, next: AutoCookiePhase::AwaitingAmount },
            ),
            AutoCookiePhase::AwaitingAmount => Some(
                AutoCookieWindowAction::Click { slot: s, next: AutoCookiePhase::AwaitingConfirm },
            ),
            AutoCookiePhase::AwaitingConfirm => Some(
                AutoCookieWindowAction::ClickAndPrepareActivation {
                    slot: s,
                    due_at: now + COOKIE_ACTIVATION_DELAY_NS,
                },
            ),
            AutoCookiePhase::PreparingActivation { .. } => None,
            AutoCookiePhase::AwaitingConsumeConfirm => Some(AutoCookieWindowAction::ClickConsume { slot: s }),
        }
    }

    /// The cookie time after activation: what was left plus one cookie, or
    /// one cookie when nothing was known or the sum cannot be represented.
    pub fn activated_cookie_duration(&self) -> (r: u128)
        ensures
            r == (match self.previous_duration {
                Some(d) => if d + COOKIE_DURATION_NS <= MAX_DURATION_NS {
                    (d + COOKIE_DURATION_NS) as u128
                } else {
                    COOKIE_DURATION_NS
                },
                None => COOKIE_DURATION_NS,
            }),
    {
        match self.previous_duration {
            Some(d) => if d <= MAX_DURATION_NS - COOKIE_DURATION_NS {
                d + COOKIE_DURATION_NS
            } else {
                COOKIE_DURATION_NS
            },
            None => COOKIE_DURATION_NS,
        }
    }
}

/// What follows a click in the purchase's windows that went through.
#[derive(Clone, Copy, Debug, PartialEq, Eq, Structural)]
pub enum AfterCookieClick {
    /// The purchase goes on in its new phase.
    Continue,
    /// The cookie was consumed: record its duration and forget the purchase.
    Finished { activated_duration: u128 },
}

impl PendingAutoCookie {
    /// Advances the purchase after `action` was carried out.
    pub fn after_window_click(&mut self, action: AutoCookieWindowAction) -> (r: AfterCookieClick)
        ensures
            final(self).started_at == old(self).started_at,
            final(self).previous_duration == old(self).previous_duration,
            match action {
                AutoCookieWindowAction::Click { next, .. } => r == AfterCookieClick::Continue && final(self).phase
                    == next,
                AutoCookieWindowAction::ClickAndPrepareActivation { due_at, .. } => r == AfterCookieClick::Continue
                    && final(self).phase == (AutoCookiePhase::PreparingActivation { due_at }),
                AutoCookieWindowAction::ClickConsume { .. } => r == (AfterCookieClick::Finished {
                    activated_duration: if old(self).previous_duration matches Some(d) && d + COOKIE_DURATION_NS
                        <= MAX_DURATION_NS {
                        (old(self).previous_duration->0 + COOKIE_DURATION_NS) as u128
                    } else {
                        COOKIE_DURATION_NS
                    },
                }) && final(self).phase == old(self).phase,
            },
    {
        match action {
            AutoCookieWindowAction::Click { next, .. } => {
                self.phase = next;
                AfterCookieClick::Continue
            },
            AutoCookieWindowAction::ClickAndPrepareActivation { due_at, .. } => {
                self.phase = AutoCookiePhase::PreparingActivation { due_at };
                AfterCookieClick::Continue
            },
            AutoCookieWindowAction::ClickConsume { .. } => {
                AfterCookieClick::Finished { activated_duration: self.activated_cookie_duration() }
            },
        }
    }

    /// The cookie is to be activated now: it was bought and its activation
    /// time has come.
    pub fn activation_due(&self, now: u128) -> (r: bool)
        ensures
            r == (self.phase matches AutoCookiePhase::PreparingActivation { due_at } && due_at <= now),
    {
        match self.phase {
            AutoCookiePhase::PreparingActivation { due_at } => due_at <= now,
            _ => false,
        }
    }

    /// The activation clicks went through: wait for the consume window.
    pub fn mark_activation_started(&mut self)
        ensures
            final(self).phase == AutoCookiePhase::AwaitingConsumeConfirm,
            final(self).started_at == old(self).started_at,
            final(self).previous_duration == old(self).previous_duration,
    {
        self.phase = AutoCookiePhase::AwaitingConsumeConfirm;
    }
}

/// Why a manual cookie purchase was refused.
#[derive(Clone, Copy, Debug, PartialEq, Eq, Structural)]
pub enum ForceCookieError {
    CookiesDisabled,
    AutoCookieDisabled,
}

impl ForceCookieError {
    pub fn message(&self) -> (r: &'static str)
        ensures
            *self == ForceCookieError::CookiesDisabled ==> r@ == "Cookie buying is disabled in config (useCookie/relist)."@,
            *self == ForceCookieError::AutoCookieDisabled ==> r@
                == "Auto-cookie threshold is disabled in config (autoCookie); set a non-zero value to buy cookies."@,
    {
        match self {
            ForceCookieError::CookiesDisabled => "Cookie buying is disabled in config (useCookie/relist).",
            ForceCookieError::AutoCookieDisabled => "Auto-cookie threshold is disabled in config (autoCookie); set a non-zero value to buy cookies.",
        }
    }
}

/// Manual cookie purchases asked for and not yet started, by account.
#[derive(Clone, Debug)]
pub struct LiveCookieForcer {
    requests: Vec<String>,
    cookies_enabled: bool,
    auto_cookie_enabled: bool,
}

impl LiveCookieForcer {
    /// The accounts waiting for a purchase.
    pub closed spec fn requested(&self) -> Set<Seq<char>> {
        str_views_of(self.requests@).to_set()
    }

    pub closed spec fn wf(&self) -> bool {
        strictly_sorted(str_views_of(self.requests@))
    }

    /// Cookie buying and relisting are both on.
    pub closed spec fn cookies_on(&self) -> bool {
        self.cookies_enabled
    }

    /// A cookie threshold is configured.
    pub closed spec fn threshold_on(&self) -> bool {
        self.auto_cookie_enabled
    }

    pub fn new(cookies_enabled: bool, auto_cookie_enabled: bool) -> (r: Self)
        ensures
            r.wf(),
            r.requested() == Set::<Seq<char>>::empty(),
            r.cookies_on() == cookies_enabled,
            r.threshold_on() == auto_cookie_enabled,
    {
        let r = LiveCookieForcer { requests: Vec::new(), cookies_enabled, auto_cookie_enabled };
        assert(str_views_of(r.requests@).to_set() =~= Set::<Seq<char>>::empty());
        r
    }

    /// Asks for a cookie purchase for `account`; refused while cookie
    /// buying or the threshold is off, so that the request is not silently
    /// dropped.
    pub fn force_cookie(&mut self, account: &str) -> (r: Result<(), ForceCookieError>)
        requires
            old(self).wf(),
        ensures
            final(self).wf(),
            final(self).cookies_on() == old(self).cookies_on(),
            final(self).threshold_on() == old(self).threshold_on(),
            !old(self).cookies_on() ==> r == Err::<(), ForceCookieError>(ForceCookieError::CookiesDisabled)
                && final(self).requested() == old(self).requested(),
            old(self).cookies_on() && !old(self).threshold_on() ==> r == Err::<(), ForceCookieError>(
                ForceCookieError::AutoCookieDisabled,
            ) && final(self).requested() == old(self).requested(),
            old(self).cookies_on() && old(self).threshold_on() ==> r is Ok && final(self).requested()
                == old(self).requested().insert(account@),
    {
        if !self.cookies_enabled {
            return Err(ForceCookieError::CookiesDisabled);
        }
        if !self.auto_cookie_enabled {
            return Err(ForceCookieError::AutoCookieDisabled);
        }
        insert_sorted(&mut self.requests, string_of(&chars_of(account)));
        Ok(())
    }

    /// Hands out the waiting accounts, each once and in ascending order, and
    /// forgets them.
    pub fn take_requests(&mut self) -> (r: Vec<String>)
        requires
            old(self).wf(),
        ensures
            final(self).wf(),
            str_views_of(r@).to_set() == old(self).requested(),
            strictly_sorted(str_views_of(r@)),
            final(self).requested() == Set::<Seq<char>>::empty(),
            final(self).cookies_on() == old(self).cookies_on(),
            final(self).threshold_on() == old(self).threshold_on(),
    {
        let mut taken: Vec<String> = Vec::new();
        std::mem::swap(&mut taken, &mut self.requests);
        assert(str_views_of(self.requests@).to_set() =~= Set::<Seq<char>>::empty());
        taken
    }
}


/// An inventory item as the cookie activation reads it.
#[derive(Clone, Debug)]
pub struct InventoryItemView {
    /// The inventory slot (hotbar slots are 36 to 44).
    pub slot: Option<u8>,
    pub in_hotbar: bool,
    /// The SkyBlock item id.
    pub tag: Option<String>,
    pub item_name: String,
    pub lore: Vec<String>,
}

/// The item is a booster cookie: by its id (any case), or its name or a
/// lore line mentions `booster cookie` (any case).
pub open spec fn booster_cookie(item: InventoryItemView) -> bool {
    ||| (item.tag matches Some(t) && eq_ignore_case(t@, "BOOSTER_COOKIE"@))
    ||| contains(lower_seq(item.item_name@), "booster cookie"@)
    ||| exists|i: int| 0 <= i < item.lore@.len() && contains(lower_seq(#[trigger] item.lore@[i]@), "booster cookie"@)
}

fn mentions_cookie(text: &str) -> (r: bool)
    ensures
        r == contains(lower_seq(text@), "booster cookie"@),
{
    contains_chars(&lower_chars(&chars_of(text)), &chars_of("booster cookie"))
}

pub fn is_booster_cookie(item: &InventoryItemView) -> (r: bool)
    ensures
        r == booster_cookie(*item),
{
    if let Some(t) = &item.tag {
        if eq_ignore_ascii_case(&chars_of(t.as_str()), &chars_of("BOOSTER_COOKIE")) {
            return true;
        }
    }
    if mentions_cookie(item.item_name.as_str()) {
        return true;
    }
    let mut i: usize = 0;
    while i < item.lore.len()
        invariant
            i <= item.lore.len(),
            forall|j: int| 0 <= j < i ==> !contains(lower_seq(#[trigger] item.lore@[j]@), "booster cookie"@),
        decreases item.lore.len() - i,
    {
        if mentions_cookie(item.lore[i].as_str()) {
            return true;
        }
        i = i + 1;
    }
    false
}

/// Some item occupies inventory slot `slot`.
pub open spec fn hotbar_occupied(items: Seq<InventoryItemView>, slot: int) -> bool {
    exists|i: int| 0 <= i < items.len() && ((#[trigger] items[i]).slot matches Some(s) && s == slot)
}

/// The first free hotbar position (0 to 8), if any: the first of the
/// inventory slots 36 to 44 that no item occupies.
pub open spec fn first_free_hotbar(items: Seq<InventoryItemView>) -> Option<u8> {
    if exists|k: int| 36 <= k <= 44 && !#[trigger] hotbar_occupied(items, k) {
        let k = choose|k: int|
            36 <= k <= 44 && !#[trigger] hotbar_occupied(items, k) && forall|j: int| 36 <= j < k ==> #[trigger] hotbar_occupied(items, j);
        Some((k - 36) as u8)
    } else {
        None
    }
}

fn slot_occupied(items: &Vec<InventoryItemView>, slot: u8) -> (r: bool)
    ensures
        r == hotbar_occupied(items@, slot as int),
{
    let mut i: usize = 0;
    while i < items.len()
        invariant
            i <= items.len(),
            forall|j: int| 0 <= j < i ==> !((#[trigger] items@[j]).slot matches Some(s) && s == slot),
        decreases items.len() - i,
    {
        if items[i].slot == Some(slot) {
            return true;
        }
        i = i + 1;
    }
    false
}

pub fn first_empty_hotbar_slot(items: &Vec<InventoryItemView>) -> (r: Option<u8>)
    ensures
        r == first_free_hotbar(items@),
{
    let mut k: u8 = 36;
    while k <= 44
        invariant
            36 <= k <= 45,
            forall|j: int| 36 <= j < k ==> #[trigger] hotbar_occupied(items@, j),
        decreases 45 - k,
    {
        if !slot_occupied(items, k) {
            let ghost kk = k as int;
            assert(36 <= kk <= 44 && !hotbar_occupied(items@, kk) && forall|j: int| 36 <= j < kk ==> #[trigger] hotbar_occupied(items@, j));
            let ghost c = choose|c: int|
                36 <= c <= 44 && !#[trigger] hotbar_occupied(items@, c) && forall|j: int| 36 <= j < c ==> #[trigger] hotbar_occupied(items@, j);
            proof {
                if c < kk {
                    assert(hotbar_occupied(items@, c));
                } else if c > kk {
                    assert(hotbar_occupied(items@, kk));
                }
            }
            return Some(k - 36);
        }
        k = k + 1;
    }
    assert(!exists|k: int| 36 <= k <= 44 && !#[trigger] hotbar_occupied(items@, k));
    None
}

/// A game action that activates the cookie.
#[derive(Clone, Copy, Debug, PartialEq, Eq, Structural)]
pub enum CookieActivationAction {
    /// Move the item in `slot` to hotbar position `hotbar_slot`.
    SwapSlotToHotbar { slot: usize, hotbar_slot: u8 },
    SetHeldHotbarSlot(u8),
    ActivateHeldItem,
}

/// The first booster cookie among the items, if any.
pub open spec fn first_cookie(items: Seq<InventoryItemView>) -> Option<InventoryItemView>
    decreases items.len(),
{
    if items.len() == 0 {
        None
    } else if booster_cookie(items[0]) {
        Some(items[0])
    } else {
        first_cookie(items.drop_first())
    }
}

/// The actions that activate the first booster cookie: hold it (moving it
/// to a free hotbar position first when it is not in the hotbar) and use
/// it.  `None` without a cookie in a known slot, or without room in the
/// hotbar for one outside it.
pub open spec fn activation_actions(items: Seq<InventoryItemView>) -> Option<Seq<CookieActivationAction>> {
    match first_cookie(items) {
        None => None,
        Some(cookie) => match cookie.slot {
            None => None,
            Some(slot) => if cookie.in_hotbar && 36 <= slot <= 44 {
                Some(seq![
                    CookieActivationAction::SetHeldHotbarSlot((slot - 36) as u8),
                    CookieActivationAction::ActivateHeldItem,
                ])
            } else {
                match first_free_hotbar(items) {
                    None => None,
                    Some(h) => Some(seq![
                        CookieActivationAction::SwapSlotToHotbar { slot: slot as usize, hotbar_slot: h },
                        CookieActivationAction::SetHeldHotbarSlot(h),
                        CookieActivationAction::ActivateHeldItem,
                    ]),
                }
            },
        },
    }
}

fn first_cookie_index(items: &Vec<InventoryItemView>) -> (r: Option<usize>)
    ensures
        r is None ==> first_cookie(items@) is None,
        r matches Some(i) ==> i < items@.len() && first_cookie(items@) == Some(items@[i as int]),
{
    let mut i: usize = 0;
    assert(items@.skip(0) =~= items@);
    while i < items.len()
        invariant
            i <= items.len(),
            first_cookie(items@) == first_cookie(items@.skip(i as int)),
        decreases items.len() - i,
    {
        proof {
            assert(items@.skip(i as int)[0] == items@[i as int]);
            assert(items@.skip(i as int).drop_first() =~= items@.skip(i + 1));
        }
        if is_booster_cookie(&items[i]) {
            return Some(i);
        }
        i = i + 1;
    }
    assert(items@.skip(i as int).len() == 0);
    None
}

pub fn activation_actions_for_cookie(items: &Vec<InventoryItemView>) -> (r: Option<Vec<CookieActivationAction>>)
    ensures
        match activation_actions(items@) {
            None => r is None,
            Some(a) => r matches Some(v) && v@ == a,
        },
{
    let i = match first_cookie_index(items) {
        Some(i) => i,
        None => {
            return None;
        },
    };
    let cookie = &items[i];
    let slot = match cookie.slot {
        Some(s) => s,
        None => {
            return None;
        },
    };
    let mut actions: Vec<CookieActivationAction> = Vec::new();
    if cookie.in_hotbar && 36 <= slot && slot <= 44 {
        actions.push(CookieActivationAction::SetHeldHotbarSlot(slot - 36));
        actions.push(CookieActivationAction::ActivateHeldItem);
        assert(actions@ =~= seq![
            CookieActivationAction::SetHeldHotbarSlot((slot - 36) as u8),
            CookieActivationAction::ActivateHeldItem,
        ]);
        return Some(actions);
    }
    let h = match first_empty_hotbar_slot(items) {
        Some(h) => h,
        None => {
            return None;
        },
    };
    actions.push(CookieActivationAction::SwapSlotToHotbar { slot: slot as usize, hotbar_slot: h });
    actions.push(CookieActivationAction::SetHeldHotbarSlot(h));
    actions.push(CookieActivationAction::ActivateHeldItem);
    assert(actions@ =~= seq![
        CookieActivationAction::SwapSlotToHotbar { slot: slot as usize, hotbar_slot: h },
        CookieActivationAction::SetHeldHotbarSlot(h),
        CookieActivationAction::ActivateHeldItem,
    ]);
    Some(actions)
}

/// The slots' texts joined by line breaks.
pub open spec fn slots_text(w: WindowView) -> Seq<char> {
    join(w.slots@.map_values(|s: WindowSlotView| slot_text(s)), "\n"@)
}

fn slots_text_of(w: &WindowView) -> (r: Vec<char>)
    ensures
        r@ == slots_text(*w),
{
    let mut texts: Vec<Vec<char>> = Vec::new();
    let mut i: usize = 0;
    while i < w.slots.len()
        invariant
            i <= w.slots.len(),
            texts@.map_values(|v: Vec<char>| v@) == w.slots@.take(i as int).map_values(
                |s: WindowSlotView| slot_text(s),
            ),
        decreases w.slots.len() - i,
    {
        let ghost before = texts@.map_values(|v: Vec<char>| v@);
        texts.push(slot_text_of(&w.slots[i]));
        assert(texts@.map_values(|v: Vec<char>| v@) =~= before.push(slot_text(w.slots@[i as int])));
        assert(w.slots@.take(i + 1).map_values(|s: WindowSlotView| slot_text(s)) =~= w.slots@.take(
            i as int,
        ).map_values(|s: WindowSlotView| slot_text(s)).push(slot_text(w.slots@[i as int])));
        i = i + 1;
    }
    assert(w.slots@.take(w.slots.len() as int) =~= w.slots@);
    join_words(&texts, &chars_of("\n"))
}

/// The lower-cased title and slot texts mention one of `patterns`, in any
/// case.
pub open spec fn matches_any(w: WindowView, patterns: Seq<Seq<char>>) -> bool {
    let text = lower_seq(w.title@ + "\n"@ + slots_text(w));
    exists|k: int| 0 <= k < patterns.len() && contains(text, lower_seq(#[trigger] patterns[k]))
}

pub fn window_matches_any(w: &WindowView, patterns: &[&str]) -> (r: bool)
    ensures
        r == matches_any(*w, patterns@.map_values(|p: &str| p@)),
{
    let ghost pv = patterns@.map_values(|p: &str| p@);
    let head = concat_chars(&chars_of(w.title.as_str()), &chars_of("\n"));
    let text = lower_chars(&concat_chars(&head, &slots_text_of(w)));
    let mut k: usize = 0;
    while k < patterns.len()
        invariant
            k <= patterns.len(),
            pv == patterns@.map_values(|p: &str| p@),
            text@ == lower_seq(w.title@ + "\n"@ + slots_text(*w)),
            forall|j: int| 0 <= j < k ==> !contains(text@, lower_seq(#[trigger] pv[j])),
        decreases patterns.len() - k,
    {
        assert(pv[k as int] == patterns@[k as int]@);
        if contains_chars(&text, &lower_chars(&chars_of(patterns[k]))) {
            return true;
        }
        k = k + 1;
    }
    false
}

/// A bazaar window for the cookie: its text mentions the bazaar or a
/// booster cookie.
pub fn is_bazaar_cookie_window(w: &WindowView) -> (r: bool)
    ensures
        r == matches_any(*w, seq!["bazaar"@, "booster cookie"@]),
{
    let mut p: Vec<&str> = Vec::new();
    p.push("bazaar");
    p.push("booster cookie");
    assert(p@.map_values(|x: &str| x@) =~= seq!["bazaar"@, "booster cookie"@]);
    window_matches_any(w, p.as_slice())
}

/// The window asks to consume a booster cookie: its slots mention a
/// booster cookie and consuming or confirming.
pub open spec fn consume_window(w: WindowView) -> bool {
    let t = slots_text(w);
    contains(t, "booster cookie"@) && (contains(t, "consume"@) || contains(t, "confirm"@))
}

pub fn is_cookie_consume_window(w: &WindowView) -> (r: bool)
    ensures
        r == consume_window(*w),
{
    let t = slots_text_of(w);
    contains_chars(&t, &chars_of("booster cookie")) && (contains_chars(&t, &chars_of("consume"))
        || contains_chars(&t, &chars_of("confirm")))
}

/// No automatic cookie purchase goes ahead while relisting is off, or
/// cookies are off, or a purchase is already pending, whatever the
/// threshold and the time left.
pub proof fn lemma_no_cookie_check_without_relisting(
    has_pending: bool,
    use_cookie: bool,
    relist: bool,
    threshold: Option<u128>,
    remaining: Option<u128>,
)
    ensures
        !relist ==> gate(has_pending, use_cookie, relist, threshold, remaining) == CookieGate::NotApplicable,
        !use_cookie ==> gate(has_pending, use_cookie, relist, threshold, remaining) == CookieGate::NotApplicable,
        has_pending ==> gate(has_pending, use_cookie, relist, threshold, remaining) == CookieGate::NotApplicable,
        gate(has_pending, use_cookie, relist, threshold, remaining) == CookieGate::CheckPurseAndPrice ==> {
            &&& relist && use_cookie && !has_pending
            &&& threshold is Some
            &&& !(remaining matches Some(left) && left > threshold->0)
        },
{
}

} // verus!
