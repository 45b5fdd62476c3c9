//! GUI diagnostics and window waits: which windows a diagnostic request
//! opens, what the scan does with each game event while it waits for a
//! window, and which windows it keeps.
use vstd::prelude::*;
use crate::config_routes::str_views;
use crate::gui_window::{slot_lines, slot_lines_text, uuid_view, WindowSlotView, WindowView};
use crate::text::{
    chars_equal, chars_of, concat_str, contains, contains_chars, join, join_words, lower_chars,
    lower_seq, str_equal, string_of, trim, trim_chars,
};

verus! {

/// A window that a diagnostic request opens with a chat command.
#[derive(Clone, Copy, Debug, PartialEq, Eq, Structural)]
pub enum GuiDiagnosticTarget {
    AuctionHouse,
    ManageAuctions,
    Bank,
    Profiles,
    SkyblockMenu,
}

/// The request's target: trimmed and lower-cased, `current` when blank.
pub open spec fn target_name(target: Option<Seq<char>>) -> Seq<char> {
    match target {
        Some(t) if trim(t).len() > 0 => lower_seq(trim(t)),
        _ => "current"@,
    }
}

/// The windows a named target opens; none for the cached window or an
/// unknown name.
pub open spec fn targets_for(name: Seq<char>) -> Seq<GuiDiagnosticTarget> {
    if name == "all"@ {
        seq![
            GuiDiagnosticTarget::AuctionHouse,
            GuiDiagnosticTarget::Bank,
            GuiDiagnosticTarget::Profiles,
            GuiDiagnosticTarget::SkyblockMenu,
        ]
    } else if name == "ah"@ || name == "auction"@ || name == "auctionhouse"@ || name == "auction_house"@
        || name == "bids"@ {
        seq![GuiDiagnosticTarget::AuctionHouse]
    } else if name == "manage"@ || name == "manage_auctions"@ || name == "auctions"@ || name
        == "auction_management"@ {
        seq![GuiDiagnosticTarget::ManageAuctions]
    } else if name == "bank"@ || name == "coins"@ {
        seq![GuiDiagnosticTarget::Bank]
    } else if name == "profiles"@ || name == "profile"@ {
        seq![GuiDiagnosticTarget::Profiles]
    } else if name == "sbmenu"@ || name == "menu"@ || name == "skyblock"@ || name == "skyblock_menu"@ {
        seq![GuiDiagnosticTarget::SkyblockMenu]
    } else {
        seq![]
    }
}

fn eq_lit(name: &Vec<char>, lit: &str) -> (r: bool)
    ensures
        r == (name@ == lit@),
{
    let l = chars_of(lit);
    chars_equal(name, &l)
}

/// The windows that the diagnostic request `target` opens, in order.
pub fn gui_diagnostic_targets(target: Option<&str>) -> (r: Vec<GuiDiagnosticTarget>)
    ensures
        r@ == targets_for(
            target_name(
                match target {
                    Some(t) => Some(t@),
                    None => None,
                },
            ),
        ),
{
    let name: Vec<char> = match target {
        Some(t) => {
            let trimmed = trim_chars(&chars_of(t));
            if trimmed.len() > 0 {
                lower_chars(&trimmed)
            } else {
                chars_of("current")
            }
        },
        None => chars_of("current"),
    };
    let mut r: Vec<GuiDiagnosticTarget> = Vec::new();
    if eq_lit(&name, "all") {
        r.push(GuiDiagnosticTarget::AuctionHouse);
        r.push(GuiDiagnosticTarget::Bank);
        r.push(GuiDiagnosticTarget::Profiles);
        r.push(GuiDiagnosticTarget::SkyblockMenu);
    } else if eq_lit(&name, "ah") || eq_lit(&name, "auction") || eq_lit(&name, "auctionhouse") || eq_lit(
        &name,
        "auction_house",
    ) || eq_lit(&name, "bids") {
        r.push(GuiDiagnosticTarget::AuctionHouse);
    } else if eq_lit(&name, "manage") || eq_lit(&name, "manage_auctions") || eq_lit(&name, "auctions")
        || eq_lit(&name, "auction_management") {
        r.push(GuiDiagnosticTarget::ManageAuctions);
    } else if eq_lit(&name, "bank") || eq_lit(&name, "coins") {
        r.push(GuiDiagnosticTarget::Bank);
    } else if eq_lit(&name, "profiles") || eq_lit(&name, "profile") {
        r.push(GuiDiagnosticTarget::Profiles);
    } else if eq_lit(&name, "sbmenu") || eq_lit(&name, "menu") || eq_lit(&name, "skyblock") || eq_lit(
        &name,
        "skyblock_menu",
    ) {
        r.push(GuiDiagnosticTarget::SkyblockMenu);
    }
    assert(r@ =~= targets_for(
        target_name(
            match target {
                Some(t) => Some(t@),
                None => None,
            },
        ),
    ));
    r
}

/// The target as the diagnostics report names it: trimmed, when not blank.
pub fn diagnostic_target_label(target: Option<&str>) -> (r: Option<String>)
    ensures
        (target matches Some(t) && trim(t@).len() > 0) ==> (r matches Some(l) && l@ == trim(target->0@)),
        !(target matches Some(t) && trim(t@).len() > 0) ==> r is None,
{
    match target {
        Some(t) => {
            let trimmed = trim_chars(&chars_of(t));
            if trimmed.len() > 0 {
                Some(string_of(&trimmed))
            } else {
                None
            }
        },
        None => None,
    }
}

/// The chat command that opens a target's window.
pub open spec fn command_of(t: GuiDiagnosticTarget) -> Seq<char> {
    match t {
        GuiDiagnosticTarget::AuctionHouse => "/ah"@,
        GuiDiagnosticTarget::ManageAuctions => "/ah"@,
        GuiDiagnosticTarget::Bank => "/bank"@,
        GuiDiagnosticTarget::Profiles => "/profiles"@,
        GuiDiagnosticTarget::SkyblockMenu => "/sbmenu"@,
    }
}

/// What the title of a target's window mentions.
pub open spec fn title_patterns_of(t: GuiDiagnosticTarget) -> Seq<Seq<char>> {
    match t {
        GuiDiagnosticTarget::AuctionHouse => seq!["auction house"@],
        GuiDiagnosticTarget::ManageAuctions => seq!["auction house"@],
        GuiDiagnosticTarget::Bank => seq!["bank"@],
        GuiDiagnosticTarget::Profiles => seq!["profiles"@],
        GuiDiagnosticTarget::SkyblockMenu => seq!["skyblock menu"@, "skyblock"@],
    }
}

/// What some slot of a target's window must mention (nothing when empty).
pub open spec fn required_slot_patterns_of(t: GuiDiagnosticTarget) -> Seq<Seq<char>> {
    match t {
        GuiDiagnosticTarget::AuctionHouse => seq![
            "manage auctions"@,
            "your auctions"@,
            "create auction"@,
            "auction browser"@,
        ],
        GuiDiagnosticTarget::ManageAuctions => seq!["manage auctions"@, "your auctions"@],
        _ => seq![],
    }
}

/// The second window a target opens by clicking a slot of the first.
pub struct GuiDiagnosticFollowUp {
    /// What the slot to click mentions.
    pub slot_patterns: Vec<&'static str>,
    /// The slot clicked when none mentions them.
    pub fallback_slot: usize,
    pub title_patterns: Vec<&'static str>,
    pub required_slot_patterns: Vec<&'static str>,
}

impl GuiDiagnosticTarget {
    pub fn command(&self) -> (r: &'static str)
        ensures
            r@ == command_of(*self),
    {
        match self {
            GuiDiagnosticTarget::AuctionHouse => "/ah",
            GuiDiagnosticTarget::ManageAuctions => "/ah",
            GuiDiagnosticTarget::Bank => "/bank",
            GuiDiagnosticTarget::Profiles => "/profiles",
            GuiDiagnosticTarget::SkyblockMenu => "/sbmenu",
        }
    }

    pub fn title_patterns(&self) -> (r: Vec<&'static str>)
        ensures
            str_views(r@) == title_patterns_of(*self),
    {
        let mut r: Vec<&'static str> = Vec::new();
        match self {
            GuiDiagnosticTarget::AuctionHouse | GuiDiagnosticTarget::ManageAuctions => {
                r.push("auction house");
            },
            GuiDiagnosticTarget::Bank => {
                r.push("bank");
            },
            GuiDiagnosticTarget::Profiles => {
                r.push("profiles");
            },
            GuiDiagnosticTarget::SkyblockMenu => {
                r.push("skyblock menu");
                r.push("skyblock");
            },
        }
        assert(str_views(r@) =~= title_patterns_of(*self));
        r
    }

    pub fn required_slot_patterns(&self) -> (r: Vec<&'static str>)
        ensures
            str_views(r@) == required_slot_patterns_of(*self),
    {
        let mut r: Vec<&'static str> = Vec::new();
        match self {
            GuiDiagnosticTarget::AuctionHouse => {
                r.push("manage auctions");
                r.push("your auctions");
                r.push("create auction");
                r.push("auction browser");
            },
            GuiDiagnosticTarget::ManageAuctions => {
                r.push("manage auctions");
                r.push("your auctions");
            },
            _ => {},
        }
        assert(str_views(r@) =~= required_slot_patterns_of(*self));
        r
    }

    /// Only the auction management target opens a second window: the one
    /// behind `manage auctions` (slot 15 when no slot mentions it).
    pub fn follow_up(&self) -> (r: Option<GuiDiagnosticFollowUp>)
        ensures
            *self != GuiDiagnosticTarget::ManageAuctions ==> r is None,
            *self == GuiDiagnosticTarget::ManageAuctions ==> (r matches Some(f) && str_views(f.slot_patterns@)
                == seq!["manage auctions"@, "your auctions"@] && f.fallback_slot == 15 && str_views(
                f.title_patterns@,
            ) == seq!["manage auctions"@] && str_views(f.required_slot_patterns@) == seq![
                "auction slots"@,
                "create auction"@,
                "seller:"@,
                "buyer:"@,
                "claim all"@,
                "expired"@,
            ]),
    {
        match self {
            GuiDiagnosticTarget::ManageAuctions => {
                let mut slot_patterns: Vec<&'static str> = Vec::new();
                slot_patterns.push("manage auctions");
                slot_patterns.push("your auctions");
                let mut title_patterns: Vec<&'static str> = Vec::new();
                title_patterns.push("manage auctions");
                let mut required: Vec<&'static str> = Vec::new();
                required.push("auction slots");
                required.push("create auction");
                required.push("seller:");
                required.push("buyer:");
                required.push("claim all");
                required.push("expired");
                assert(str_views(slot_patterns@) =~= seq!["manage auctions"@, "your auctions"@]);
                assert(str_views(title_patterns@) =~= seq!["manage auctions"@]);
                assert(str_views(required@) =~= seq![
                    "auction slots"@,
                    "create auction"@,
                    "seller:"@,
                    "buyer:"@,
                    "claim all"@,
                    "expired"@,
                ]);
                Some(
                    GuiDiagnosticFollowUp {
                        slot_patterns,
                        fallback_slot: 15,
                        title_patterns,
                        required_slot_patterns: required,
                    },
                )
            },
            _ => None,
        }
    }
}

/// A slot's text as the scans search it: its lines, lower-cased, one per line.
pub open spec fn slot_text(s: WindowSlotView) -> Seq<char> {
    lower_seq(join(slot_lines(s), "\n"@))
}

/// Some slot's text mentions the (lower-cased) pattern.
pub open spec fn some_slot_mentions(slots: Seq<WindowSlotView>, pat: Seq<char>) -> bool {
    exists|i: int| 0 <= i < slots.len() && contains(slot_text(#[trigger] slots[i]), lower_seq(pat))
}

/// A window has the slots a wait asks for: no pattern is asked, or some
/// slot mentions one of them.
pub open spec fn has_required_slots(w: WindowView, patterns: Seq<Seq<char>>) -> bool {
    patterns.len() == 0 || exists|k: int| 0 <= k < patterns.len() && some_slot_mentions(w.slots@, #[trigger] patterns[k])
}

pub fn slot_text_of(s: &WindowSlotView) -> (r: Vec<char>)
    ensures
        r@ == slot_text(*s),
{
    let joined = slot_lines_text(s);
    lower_chars(&joined)
}

fn window_mentions(w: &WindowView, pattern: &str) -> (r: bool)
    ensures
        r == some_slot_mentions(w.slots@, pattern@),
{
    let pat = lower_chars(&chars_of(pattern));
    let mut i: usize = 0;
    while i < w.slots.len()
        invariant
            i <= w.slots.len(),
            pat@ == lower_seq(pattern@),
            forall|j: int| 0 <= j < i ==> !contains(slot_text(#[trigger] w.slots@[j]), lower_seq(pattern@)),
        decreases w.slots.len() - i,
    {
        let text = slot_text_of(&w.slots[i]);
        if contains_chars(&text, &pat) {
            assert(contains(slot_text(w.slots@[i as int]), lower_seq(pattern@)));
            return true;
        }
        i = i + 1;
    }
    false
}

/// Whether the window has the slots a wait asks for (see `has_required_slots`).
pub fn window_has_required_slots(w: &WindowView, patterns: &Vec<&str>) -> (r: bool)
    ensures
        r == has_required_slots(*w, str_views(patterns@)),
{
    if patterns.len() == 0 {
        return true;
    }
    let mut k: usize = 0;
    while k < patterns.len()
        invariant
            k <= patterns.len(),
            patterns.len() > 0,
            forall|j: int| 0 <= j < k ==> !some_slot_mentions(w.slots@, #[trigger] str_views(patterns@)[j]),
        decreases patterns.len() - k,
    {
        if window_mentions(w, patterns[k]) {
            assert(some_slot_mentions(w.slots@, str_views(patterns@)[k as int]));
            return true;
        }
        k = k + 1;
    }
    false
}

/// Two window snapshots show the same thing: the same title and the same
/// slots (number, item, name, lore and item id).
pub open spec fn same_slot(a: WindowSlotView, b: WindowSlotView) -> bool {
    a.slot == b.slot && a.name@ == b.name@ && a.display_name@ == b.display_name@ && str_views_of_strings(
        a.lore@,
    ) == str_views_of_strings(b.lore@) && uuid_view(a) == uuid_view(b)
}

pub open spec fn str_views_of_strings(v: Seq<String>) -> Seq<Seq<char>> {
    v.map_values(|s: String| s@)
}

pub open spec fn same_window(a: WindowView, b: WindowView) -> bool {
    &&& a.title@ == b.title@
    &&& a.slots@.len() == b.slots@.len()
    &&& forall|i: int| 0 <= i < a.slots@.len() ==> same_slot(#[trigger] a.slots@[i], b.slots@[i])
}

fn strings_equal(a: &Vec<String>, b: &Vec<String>) -> (r: bool)
    ensures
        r == (str_views_of_strings(a@) == str_views_of_strings(b@)),
{
    if a.len() != b.len() {
        assert(str_views_of_strings(a@).len() != str_views_of_strings(b@).len());
        return false;
    }
    let mut i: usize = 0;
    while i < a.len()
        invariant
            i <= a.len(),
            a.len() == b.len(),
            forall|j: int| 0 <= j < i ==> (#[trigger] a@[j])@ == b@[j]@,
        decreases a.len() - i,
    {
        if !str_equal(a[i].as_str(), b[i].as_str()) {
            assert(str_views_of_strings(a@)[i as int] != str_views_of_strings(b@)[i as int]);
            return false;
        }
        i = i + 1;
    }
    assert(str_views_of_strings(a@) =~= str_views_of_strings(b@));
    true
}

fn slots_equal(a: &WindowSlotView, b: &WindowSlotView) -> (r: bool)
    ensures
        r == same_slot(*a, *b),
{
    a.slot == b.slot && str_equal(a.name.as_str(), b.name.as_str()) && str_equal(
        a.display_name.as_str(),
        b.display_name.as_str(),
    ) && strings_equal(&a.lore, &b.lore) && match (&a.item_uuid, &b.item_uuid) {
        (Some(x), Some(y)) => str_equal(x.as_str(), y.as_str()),
        (None, None) => true,
        _ => false,
    }
}

/// Whether two snapshots show the same window (see `same_window`).
pub fn windows_equal(a: &WindowView, b: &WindowView) -> (r: bool)
    ensures
        r == same_window(*a, *b),
{
    if !str_equal(a.title.as_str(), b.title.as_str()) || a.slots.len() != b.slots.len() {
        return false;
    }
    let mut i: usize = 0;
    while i < a.slots.len()
        invariant
            i <= a.slots.len(),
            a.slots.len() == b.slots.len(),
            forall|j: int| 0 <= j < i ==> same_slot(#[trigger] a.slots@[j], b.slots@[j]),
        decreases a.slots.len() - i,
    {
        if !slots_equal(&a.slots[i], &b.slots[i]) {
            return false;
        }
        i = i + 1;
    }
    true
}

/// Adds a snapshot to the diagnostics unless the same window is already there.
pub fn push_unique_window(windows: &mut Vec<WindowView>, window: WindowView)
    ensures
        (exists|i: int| 0 <= i < old(windows)@.len() && same_window(#[trigger] old(windows)@[i], window))
            ==> final(windows)@ == old(windows)@,
        !(exists|i: int| 0 <= i < old(windows)@.len() && same_window(#[trigger] old(windows)@[i], window))
            ==> final(windows)@ == old(windows)@.push(window),
{
    let mut i: usize = 0;
    while i < windows.len()
        invariant
            i <= windows.len(),
            windows@ == old(windows)@,
            forall|j: int| 0 <= j < i ==> !same_window(#[trigger] windows@[j], window),
        decreases windows.len() - i,
    {
        if windows_equal(&windows[i], &window) {
            return;
        }
        i = i + 1;
    }
    windows.push(window);
}

/// A game event as a window wait sees it.
#[derive(Clone, Copy, Debug, PartialEq, Eq, Structural)]
pub enum WaitEvent {
    /// No event arrived.
    Nothing,
    /// A window opened; whether its title and slots are those awaited.
    WindowOpen { title_matches: bool, has_required_slots: bool },
    WindowClosed,
    /// The account was kicked or disconnected.
    Disconnected,
    /// The account became ready, or a chat message arrived.
    Passing,
    Scoreboard,
}

/// What a window wait does with one event.
#[derive(Clone, Copy, Debug, PartialEq, Eq, Structural)]
pub enum WaitStep {
    /// Cache the window and return it: it is the one awaited.
    RememberAndReturn,
    /// Cache the window and keep waiting.
    Remember,
    /// Forget the cached window, keep the event for the runtime, keep waiting.
    ForgetAndDefer,
    /// Forget the cached window, keep the event, and fail the wait.
    ForgetDeferAndFail,
    /// Keep the event for the runtime and keep waiting.
    Defer,
    /// Record the scoreboard, keep the event and keep waiting.
    RecordScoreboardAndDefer,
    /// Keep waiting.
    KeepWaiting,
}

/// The step for one event of a window wait.
pub fn window_wait_step(event: WaitEvent) -> (r: WaitStep)
    ensures
        r == (match event {
            WaitEvent::Nothing => WaitStep::KeepWaiting,
            WaitEvent::WindowOpen { title_matches, has_required_slots } => if title_matches
                && has_required_slots {
                WaitStep::RememberAndReturn
            } else {
                WaitStep::Remember
            },
            WaitEvent::WindowClosed => WaitStep::ForgetAndDefer,
            WaitEvent::Disconnected => WaitStep::ForgetDeferAndFail,
            WaitEvent::Passing => WaitStep::Defer,
            WaitEvent::Scoreboard => WaitStep::RecordScoreboardAndDefer,
        }),
{
    match event {
        WaitEvent::Nothing => WaitStep::KeepWaiting,
        WaitEvent::WindowOpen { title_matches, has_required_slots } => {
            if title_matches && has_required_slots {
                WaitStep::RememberAndReturn
            } else {
                WaitStep::Remember
            }
        },
        WaitEvent::WindowClosed => WaitStep::ForgetAndDefer,
        WaitEvent::Disconnected => WaitStep::ForgetDeferAndFail,
        WaitEvent::Passing => WaitStep::Defer,
        WaitEvent::Scoreboard => WaitStep::RecordScoreboardAndDefer,
    }
}

/// The failure of a wait whose account disconnected.
pub open spec fn disconnect_text(account: Seq<char>, context: Seq<char>, reason: Seq<char>) -> Seq<char> {
    account + " disconnected while "@ + context + ": "@ + reason
}

pub fn wait_disconnect_message(account: &str, context: &str, reason: &str) -> (r: String)
    ensures
        r@ == disconnect_text(account@, context@, reason@),
{
    let a = concat_str(account, " disconnected while ");
    let b = concat_str(a.as_str(), context);
    let c = concat_str(b.as_str(), ": ");
    concat_str(c.as_str(), reason)
}

/// The failure of a wait that ran out of time.
pub open spec fn timeout_text(title_patterns: Seq<Seq<char>>, context: Seq<char>) -> Seq<char> {
    "timed out waiting for "@ + join(title_patterns, "/"@) + " window while "@ + context
}

pub fn wait_timeout_message(title_patterns: &Vec<&str>, context: &str) -> (r: String)
    ensures
        r@ == timeout_text(str_views(title_patterns@), context@),
{
    let mut ws: Vec<Vec<char>> = Vec::new();
    let mut i: usize = 0;
    while i < title_patterns.len()
        invariant
            i <= title_patterns.len(),
            ws@.map_values(|w: Vec<char>| w@) == str_views(title_patterns@).take(i as int),
        decreases title_patterns.len() - i,
    {
        let ghost before = ws@.map_values(|w: Vec<char>| w@);
        ws.push(chars_of(title_patterns[i]));
        assert(ws@.map_values(|w: Vec<char>| w@) =~= before.push(title_patterns@[i as int]@));
        assert(str_views(title_patterns@).take(i + 1) =~= str_views(title_patterns@).take(i as int).push(
            title_patterns@[i as int]@,
        ));
        i = i + 1;
    }
    assert(str_views(title_patterns@).take(title_patterns.len() as int) =~= str_views(title_patterns@));
    let joined = string_of(&join_words(&ws, &chars_of("/")));
    let a = concat_str("timed out waiting for ", joined.as_str());
    let b = concat_str(a.as_str(), " window while ");
    concat_str(b.as_str(), context)
}

/// A diagnostic scan that could not open a target goes on with the next
/// one, unless the account disconnected.
pub fn diagnostic_failure_skipped(unavailable: bool, message: &str) -> (r: bool)
    ensures
        r == (unavailable && !contains(message@, " disconnected while "@)),
{
    unavailable && !crate::runtime_rules::is_window_wait_disconnect(message)
}

/// The failure of a diagnostic request that saw no window at all.
pub fn no_window_message(account: &str) -> (r: String)
    ensures
        r@ == "no GUI window snapshot is available for "@ + account@,
{
    concat_str("no GUI window snapshot is available for ", account)
}

/// A disconnect during a window wait is always recognised as one, so a
/// diagnostic scan never skips it.
pub proof fn lemma_disconnect_is_recognised(account: Seq<char>, context: Seq<char>, reason: Seq<char>)
    ensures
        contains(disconnect_text(account, context, reason), " disconnected while "@),
{
    let t = disconnect_text(account, context, reason);
    let pat = " disconnected while "@;
    assert(t.subrange(account.len() as int, (account.len() + pat.len()) as int) =~= pat);
    assert(crate::text::occurs_at(t, pat, account.len() as int));
}


/// How a scan of an account's active auctions begins.
#[derive(Clone, Copy, Debug, PartialEq, Eq, Structural)]
pub enum AuctionScanStart {
    /// Read the auctions off the cached Manage Auctions window.
    UseCachedWindow,
    /// Refuse: a dry run may not open windows, and none is cached.
    RefuseDryRun,
    /// Refuse: the account has no game client.
    NoClient,
    /// Open the auction house (`/ah`) and go to Manage Auctions.
    OpenAuctionHouse,
}

pub fn active_auction_scan_start(cached_manage_window: bool, market_actions_allowed: bool, has_client: bool) -> (r: AuctionScanStart)
    ensures
        cached_manage_window ==> r == AuctionScanStart::UseCachedWindow,
        !cached_manage_window && !market_actions_allowed ==> r == AuctionScanStart::RefuseDryRun,
        !cached_manage_window && market_actions_allowed && !has_client ==> r == AuctionScanStart::NoClient,
        !cached_manage_window && market_actions_allowed && has_client ==> r == AuctionScanStart::OpenAuctionHouse,
{
    if cached_manage_window {
        AuctionScanStart::UseCachedWindow
    } else if !market_actions_allowed {
        AuctionScanStart::RefuseDryRun
    } else if !has_client {
        AuctionScanStart::NoClient
    } else {
        AuctionScanStart::OpenAuctionHouse
    }
}

/// Why a dry run cannot scan an account's auctions.
pub fn dry_run_scan_message(account: &str) -> (r: String)
    ensures
        r@ == "dry-run active auction scan for "@ + account@ + " requires a cached Manage Auctions window"@,
{
    let a = concat_str("dry-run active auction scan for ", account);
    concat_str(a.as_str(), " requires a cached Manage Auctions window")
}

/// Why an account without a game client cannot be scanned.
pub fn no_client_message(account: &str) -> (r: String)
    ensures
        r@ == "no Minecraft client registered for "@ + account@,
{
    concat_str("no Minecraft client registered for ", account)
}

} // verus!
