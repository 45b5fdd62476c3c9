//! What the runtime reads of an open game window: its title and, for each
//! slot, the item's id, display name and lore.
use vstd::prelude::*;
use crate::text::{
    chars_of, contains, contains_chars, join, join_words, lower_chars, lower_seq, str_equal,
};
use crate::scan::matches_at;

verus! {

/// One slot of a window.
#[derive(Clone, Debug)]
pub struct WindowSlotView {
    pub slot: usize,
    /// The item id, such as `red_bed`.
    pub name: String,
    pub display_name: String,
    pub lore: Vec<String>,
    /// The item's unique id, where the game shows one.
    pub item_uuid: Option<String>,
}

/// An open window.
#[derive(Clone, Debug)]
pub struct WindowView {
    pub title: String,
    pub slots: Vec<WindowSlotView>,
}

/// The slot's item id as text, if it has one.
pub open spec fn uuid_view(s: WindowSlotView) -> Option<Seq<char>> {
    match s.item_uuid {
        Some(u) => Some(u@),
        None => None,
    }
}

pub open spec fn string_seq(v: Seq<String>) -> Seq<Seq<char>> {
    v.map_values(|s: String| s@)
}

/// A slot's lines: its display name, then its lore.
pub open spec fn slot_lines(s: WindowSlotView) -> Seq<Seq<char>> {
    seq![s.display_name@] + string_seq(s.lore@)
}

/// The lines of every slot, slot by slot.
pub open spec fn all_slot_lines(slots: Seq<WindowSlotView>) -> Seq<Seq<char>>
    decreases slots.len(),
{
    if slots.len() == 0 {
        seq![]
    } else {
        all_slot_lines(slots.drop_last()) + slot_lines(slots.last())
    }
}

/// The window's title followed by every slot line, joined by line breaks.
pub open spec fn window_text(w: WindowView) -> Seq<char> {
    join(seq![w.title@] + all_slot_lines(w.slots@), "\n"@)
}

/// Whether the lower-cased title mentions `pat`.
pub open spec fn title_mentions(w: WindowView, pat: Seq<char>) -> bool {
    contains(lower_seq(w.title@), pat)
}

/// A purchase confirmation window.
pub open spec fn confirm_purchase(w: WindowView) -> bool {
    title_mentions(w, "confirm purchase"@)
}

/// `s` ends with `pat`.
pub open spec fn ends_with(s: Seq<char>, pat: Seq<char>) -> bool {
    s.len() >= pat.len() && s.skip(s.len() - pat.len()) == pat
}

/// The first entry of `slots` for slot number `slot`, if any.
pub open spec fn slot_entry(slots: Seq<WindowSlotView>, slot: usize) -> Option<WindowSlotView>
    decreases slots.len(),
{
    if slots.len() == 0 {
        None
    } else if slots[0].slot == slot {
        Some(slots[0])
    } else {
        slot_entry(slots.drop_first(), slot)
    }
}

/// The slot `slot` holds a bed (the item that opens a bought auction
/// before it can be claimed).
pub open spec fn bed_slot(w: WindowView, slot: usize) -> bool {
    slot_entry(w.slots@, slot) matches Some(s) && (s.name@ == "bed"@ || ends_with(s.name@, "_bed"@))
}

/// The window belongs to a buy: an auction view, a purchase confirmation,
/// or a window whose text shows a buy button or a buy outcome.
pub open spec fn live_buy_window(w: WindowView) -> bool {
    let text = lower_seq(window_text(w));
    ||| title_mentions(w, "auction view"@)
    ||| title_mentions(w, "view auction"@)
    ||| confirm_purchase(w)
    ||| contains(text, "buy item right now"@)
    ||| contains(text, "click to buy"@)
    ||| contains(text, "already bought"@)
    ||| contains(text, "too late"@)
    ||| contains(text, "not enough coins"@)
    ||| contains(text, "auction ended"@)
}

/// Whether the lower-cased `text` contains `pat`.
pub fn lower_text_contains(text: &Vec<char>, pat: &str) -> (r: bool)
    ensures
        r == contains(lower_seq(text@), pat@),
{
    let low = lower_chars(text);
    let p = chars_of(pat);
    contains_chars(&low, &p)
}

pub fn title_contains(w: &WindowView, pat: &str) -> (r: bool)
    ensures
        r == title_mentions(*w, pat@),
{
    let t = chars_of(w.title.as_str());
    lower_text_contains(&t, pat)
}

pub fn is_confirm_purchase_window(w: &WindowView) -> (r: bool)
    ensures
        r == confirm_purchase(*w),
{
    title_contains(w, "confirm purchase")
}

/// Whether `s` ends with `pat`.
pub fn ends_with_str(s: &str, pat: &str) -> (r: bool)
    ensures
        r == ends_with(s@, pat@),
{
    let a = chars_of(s);
    let b = chars_of(pat);
    if a.len() < b.len() {
        return false;
    }
    let r = matches_at(&a, &b, a.len() - b.len());
    proof {
        if r {
            assert(a@.subrange((a.len() - b.len()) as int, a.len() as int) =~= a@.skip(
                a.len() - b.len(),
            ));
        } else {
            assert(a@.subrange((a.len() - b.len()) as int, a.len() as int) =~= a@.skip(
                a.len() - b.len(),
            ));
        }
    }
    r
}

/// Whether slot `slot` of the window holds a bed.
pub fn is_bed_action_slot(w: &WindowView, slot: usize) -> (r: bool)
    ensures
        r == bed_slot(*w, slot),
{
    let mut i: usize = 0;
    assert(w.slots@.skip(0) =~= w.slots@);
    while i < w.slots.len()
        invariant
            i <= w.slots.len(),
            slot_entry(w.slots@, slot) == slot_entry(w.slots@.skip(i as int), slot),
        decreases w.slots.len() - i,
    {
        assert(w.slots@.skip(i as int).drop_first() =~= w.slots@.skip(i + 1));
        if w.slots[i].slot == slot {
            let name = w.slots[i].name.as_str();
            return str_equal(name, "bed") || ends_with_str(name, "_bed");
        }
        i = i + 1;
    }
    false
}

/// Every slot line, slot by slot.
fn collect_slot_lines(slots: &Vec<WindowSlotView>) -> (r: Vec<Vec<char>>)
    ensures
        r@.map_values(|v: Vec<char>| v@) == all_slot_lines(slots@),
{
    let mut r: Vec<Vec<char>> = Vec::new();
    let mut i: usize = 0;
    while i < slots.len()
        invariant
            i <= slots.len(),
            r@.map_values(|v: Vec<char>| v@) == all_slot_lines(slots@.take(i as int)),
        decreases slots.len() - i,
    {
        assert(slots@.take(i + 1).drop_last() =~= slots@.take(i as int));
        assert(slots@.take(i + 1).last() == slots@[i as int]);
        let ghost before = r@.map_values(|v: Vec<char>| v@);
        let s = &slots[i];
        r.push(chars_of(s.display_name.as_str()));
        let mut k: usize = 0;
        while k < s.lore.len()
            invariant
                k <= s.lore.len(),
                r@.map_values(|v: Vec<char>| v@) == before + seq![s.display_name@] + string_seq(
                    s.lore@,
                ).take(k as int),
            decreases s.lore.len() - k,
        {
            let ghost mid = r@.map_values(|v: Vec<char>| v@);
            r.push(chars_of(s.lore[k].as_str()));
            assert(r@.map_values(|v: Vec<char>| v@) =~= mid.push(s.lore@[k as int]@));
            assert(string_seq(s.lore@).take(k + 1) =~= string_seq(s.lore@).take(k as int).push(
                s.lore@[k as int]@,
            ));
            k = k + 1;
        }
        assert(string_seq(s.lore@).take(s.lore.len() as int) =~= string_seq(s.lore@));
        assert(before + seq![s.display_name@] + string_seq(s.lore@) =~= before + slot_lines(*s));
        i = i + 1;
    }
    assert(slots@.take(slots.len() as int) =~= slots@);
    r
}

/// A slot's lines joined by line breaks.
pub fn slot_lines_text(s: &WindowSlotView) -> (r: Vec<char>)
    ensures
        r@ == join(slot_lines(*s), "\n"@),
{
    let mut lines: Vec<Vec<char>> = Vec::new();
    lines.push(chars_of(s.display_name.as_str()));
    let mut i: usize = 0;
    while i < s.lore.len()
        invariant
            i <= s.lore.len(),
            lines@.map_values(|w: Vec<char>| w@) == slot_lines(*s).take(i + 1),
        decreases s.lore.len() - i,
    {
        let ghost before = lines@.map_values(|w: Vec<char>| w@);
        lines.push(chars_of(s.lore[i].as_str()));
        assert(lines@.map_values(|w: Vec<char>| w@) =~= before.push(s.lore@[i as int]@));
        assert(slot_lines(*s).take(i + 2) =~= slot_lines(*s).take(i + 1).push(s.lore@[i as int]@));
        i = i + 1;
    }
    assert(slot_lines(*s).take(s.lore.len() + 1) =~= slot_lines(*s));
    join_words(&lines, &chars_of("\n"))
}

/// The window's title and slot lines joined by line breaks.
pub fn window_text_of(w: &WindowView) -> (r: Vec<char>)
    ensures
        r@ == window_text(*w),
{
    let lines = collect_slot_lines(&w.slots);
    let mut all: Vec<Vec<char>> = Vec::new();
    all.push(chars_of(w.title.as_str()));
    let mut i: usize = 0;
    while i < lines.len()
        invariant
            i <= lines.len(),
            all@.map_values(|v: Vec<char>| v@) == seq![w.title@] + lines@.map_values(
                |v: Vec<char>| v@,
            ).take(i as int),
        decreases lines.len() - i,
    {
        let ghost before = all@.map_values(|v: Vec<char>| v@);
        all.push(lines[i].clone());
        assert(all@.map_values(|v: Vec<char>| v@) =~= before.push(lines@[i as int]@));
        assert(lines@.map_values(|v: Vec<char>| v@).take(i + 1) =~= lines@.map_values(
            |v: Vec<char>| v@,
        ).take(i as int).push(lines@[i as int]@));
        i = i + 1;
    }
    assert(lines@.map_values(|v: Vec<char>| v@).take(lines.len() as int) =~= lines@.map_values(
        |v: Vec<char>| v@,
    ));
    let sep = chars_of("\n");
    join_words(&all, &sep)
}

/// Whether the window belongs to a buy in progress.
pub fn is_live_buy_window(w: &WindowView) -> (r: bool)
    ensures
        r == live_buy_window(*w),
{
    if title_contains(w, "auction view") || title_contains(w, "view auction") {
        return true;
    }
    if is_confirm_purchase_window(w) {
        return true;
    }
    let text = window_text_of(w);
    lower_text_contains(&text, "buy item right now") || lower_text_contains(&text, "click to buy")
        || lower_text_contains(&text, "already bought") || lower_text_contains(&text, "too late")
        || lower_text_contains(&text, "not enough coins") || lower_text_contains(
        &text,
        "auction ended",
    )
}

} // verus!
