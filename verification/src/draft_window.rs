//! Reading an auction draft off the game's windows: which item the
//! create-auction window holds, which slot shows its price, the item's name
//! and tag, and the same facts of an expired auction in the manage window.
//! Turning a price text into coins is the relist parser's work.
use vstd::prelude::*;
use crate::blacklist_rules::{strip_color_codes, strip_colors};
use crate::dashboard_rules::{lines_of, text_lines};
use crate::gui_window::{slot_lines, slot_lines_text, string_seq, title_mentions, uuid_view, WindowSlotView, WindowView};
use crate::live_buy::{after_colon, text_after_colon};
use crate::reconcile_flow::is_create_auction_window;
use crate::text::{
    chars_equal, chars_of, contains, contains_chars, join, lower_chars, lower_seq, string_of, trim,
    trim_chars,
};

verus! {

/// A slot's plain text: its lines joined by line breaks, colour codes removed.
pub open spec fn plain_text(s: WindowSlotView) -> Seq<char> {
    strip_colors(join(slot_lines(s), "\n"@))
}

pub fn slot_plain_text(s: &WindowSlotView) -> (r: Vec<char>)
    ensures
        r@ == plain_text(*s),
{
    strip_color_codes(&slot_lines_text(s))
}

/// The lower-cased `text` contains `pat`.
fn lower_has(low: &Vec<char>, pat: &str) -> (r: bool)
    ensures
        r == contains(low@, pat@),
{
    contains_chars(low, &chars_of(pat))
}

/// The item slot of a draft holds an item: it carries an item id, or its
/// text shows none of the prompts of an empty slot.
pub open spec fn draft_item_selected(s: WindowSlotView) -> bool {
    let low = lower_seq(plain_text(s));
    ||| s.item_uuid is Some
    ||| {
        &&& !contains(low, "click an item in your inventory"@)
        &&& !contains(low, "no item selected"@)
        &&& !contains(low, "selects it for auction"@)
        &&& !contains(low, "select an item"@)
    }
}

pub fn selected_draft_item_slot(s: &WindowSlotView) -> (r: bool)
    ensures
        r == draft_item_selected(*s),
{
    if s.item_uuid.is_some() {
        return true;
    }
    let low = lower_chars(&slot_plain_text(s));
    !lower_has(&low, "click an item in your inventory") && !lower_has(&low, "no item selected")
        && !lower_has(&low, "selects it for auction") && !lower_has(&low, "select an item")
}

/// The slots of the create-auction window's own buttons and item, never
/// taken for the price.
pub open spec fn button_slot(n: usize) -> bool {
    n == 13 || n == 29 || n == 33 || n == 48 || n == 49
}

/// A slot that shows the draft's price.
pub open spec fn price_label_slot(s: WindowSlotView) -> bool {
    let low = lower_seq(plain_text(s));
    !button_slot(s.slot) && (contains(low, "price"@) || contains(low, "starting bid"@))
}

/// `r` is the index of the draft's price slot: the first slot that shows a
/// price, else the first slot numbered 31, else none.
pub open spec fn price_slot_choice(slots: Seq<WindowSlotView>, r: Option<usize>) -> bool {
    let none_labeled = forall|j: int| 0 <= j < slots.len() ==> !price_label_slot(#[trigger] slots[j]);
    match r {
        Some(i) => i < slots.len() && (
            (price_label_slot(slots[i as int]) && forall|j: int| 0 <= j < i ==> !price_label_slot(#[trigger] slots[j]))
            || (none_labeled && slots[i as int].slot == 31 && forall|j: int| 0 <= j < i ==> #[trigger] slots[j].slot != 31)),
        None => none_labeled && forall|j: int| 0 <= j < slots.len() ==> #[trigger] slots[j].slot != 31,
    }
}

fn is_price_label_slot(s: &WindowSlotView) -> (r: bool)
    ensures
        r == price_label_slot(*s),
{
    let n = s.slot;
    if n == 13 || n == 29 || n == 33 || n == 48 || n == 49 {
        return false;
    }
    let low = lower_chars(&slot_plain_text(s));
    lower_has(&low, "price") || lower_has(&low, "starting bid")
}

/// The index in `w.slots` of the slot that shows the draft's price.
pub fn pending_draft_price_slot(w: &WindowView) -> (r: Option<usize>)
    ensures
        price_slot_choice(w.slots@, r),
{
    let mut i: usize = 0;
    while i < w.slots.len()
        invariant
            i <= w.slots.len(),
            forall|j: int| 0 <= j < i ==> !price_label_slot(#[trigger] w.slots@[j]),
        decreases w.slots.len() - i,
    {
        if is_price_label_slot(&w.slots[i]) {
            return Some(i);
        }
        i = i + 1;
    }
    let mut k: usize = 0;
    while k < w.slots.len()
        invariant
            k <= w.slots.len(),
            forall|j: int| 0 <= j < w.slots.len() ==> !price_label_slot(#[trigger] w.slots@[j]),
            forall|j: int| 0 <= j < k ==> #[trigger] w.slots@[j].slot != 31,
        decreases w.slots.len() - k,
    {
        if w.slots[k].slot == 31 {
            return Some(k);
        }
        k = k + 1;
    }
    None
}

/// The first line with more than whitespace, if any.
pub open spec fn first_nonblank(lines: Seq<Seq<char>>) -> Option<Seq<char>>
    decreases lines.len(),
{
    if lines.len() == 0 {
        None
    } else if trim(lines[0]).len() > 0 {
        Some(lines[0])
    } else {
        first_nonblank(lines.drop_first())
    }
}

/// The lore lines without colour codes.
pub open spec fn plain_lore(s: WindowSlotView) -> Seq<Seq<char>> {
    string_seq(s.lore@).map_values(|l: Seq<char>| strip_colors(l))
}

/// A draft item's name: its display name without colour codes, unless that
/// is blank or one of the window's own labels; then the first lore line
/// with text, or the display name where there is none.
pub open spec fn draft_name(s: WindowSlotView) -> Seq<char> {
    let display = strip_colors(s.display_name@);
    let label = lower_seq(trim(display));
    if label.len() > 0 && label != "auction for item:"@ && label != "item to auction"@ {
        display
    } else {
        match first_nonblank(plain_lore(s)) {
            Some(l) => l,
            None => display,
        }
    }
}

pub fn draft_item_name(s: &WindowSlotView) -> (r: String)
    ensures
        r@ == draft_name(*s),
{
    let display = strip_color_codes(&chars_of(s.display_name.as_str()));
    let label = lower_chars(&trim_chars(&display));
    if label.len() > 0 && !chars_equal(&label, &chars_of("auction for item:")) && !chars_equal(
        &label,
        &chars_of("item to auction"),
    ) {
        return string_of(&display);
    }
    let ghost lore = plain_lore(*s);
    let mut i: usize = 0;
    assert(lore.skip(0) =~= lore);
    while i < s.lore.len()
        invariant
            i <= s.lore.len(),
            lore == plain_lore(*s),
            lore.len() == s.lore.len(),
            first_nonblank(lore) == first_nonblank(lore.skip(i as int)),
            display@ == strip_colors(s.display_name@),
            !(label@.len() > 0 && label@ != "auction for item:"@ && label@ != "item to auction"@),
            label@ == lower_seq(trim(display@)),
        decreases s.lore.len() - i,
    {
        let line = strip_color_codes(&chars_of(s.lore[i].as_str()));
        assert(lore.skip(i as int)[0] == line@);
        assert(lore.skip(i as int).drop_first() =~= lore.skip(i + 1));
        if trim_chars(&line).len() > 0 {
            assert(first_nonblank(lore.skip(i as int)) == Some(line@));
            return string_of(&line);
        }
        i = i + 1;
    }
    string_of(&display)
}

/// `line` mentions one of `labels`, ignoring case and colour codes.
pub open spec fn line_labeled(line: Seq<char>, labels: Seq<Seq<char>>) -> bool {
    exists|k: int| 0 <= k < labels.len() && contains(lower_seq(strip_colors(line)), lower_seq(#[trigger] labels[k]))
}

/// The value of the first line that mentions one of `labels` and has text
/// after its first colon: that text, trimmed, colour codes removed.
pub open spec fn labeled_value(lines: Seq<Seq<char>>, labels: Seq<Seq<char>>) -> Option<Seq<char>>
    decreases lines.len(),
{
    if lines.len() == 0 {
        None
    } else {
        let value = after_colon(strip_colors(lines[0]));
        if line_labeled(lines[0], labels) && value is Some && trim(value->0).len() > 0 {
            Some(trim(value->0))
        } else {
            labeled_value(lines.drop_first(), labels)
        }
    }
}

pub open spec fn str_views(v: Seq<&str>) -> Seq<Seq<char>> {
    v.map_values(|s: &str| s@)
}

fn mentions_label(low: &Vec<char>, labels: &[&str]) -> (r: bool)
    ensures
        r == exists|k: int| 0 <= k < labels@.len() && contains(low@, lower_seq(#[trigger] str_views(labels@)[k])),
{
    let mut k: usize = 0;
    while k < labels.len()
        invariant
            k <= labels.len(),
            forall|j: int| 0 <= j < k ==> !contains(low@, lower_seq(#[trigger] str_views(labels@)[j])),
        decreases labels.len() - k,
    {
        if contains_chars(low, &lower_chars(&chars_of(labels[k]))) {
            assert(str_views(labels@)[k as int] == labels@[k as int]@);
            return true;
        }
        assert(str_views(labels@)[k as int] == labels@[k as int]@);
        k = k + 1;
    }
    false
}

/// The labelled value of one line, where it has one.
fn line_value(raw: &Vec<char>, labels: &[&str]) -> (r: Option<Vec<char>>)
    ensures
        ({
            let value = after_colon(strip_colors(raw@));
            if line_labeled(raw@, str_views(labels@)) && value is Some && trim(value->0).len() > 0 {
                r matches Some(t) && t@ == trim(value->0)
            } else {
                r is None
            }
        }),
{
    let line = strip_color_codes(raw);
    let low = lower_chars(&line);
    if mentions_label(&low, labels) {
        if let Some(v) = text_after_colon(&line) {
            let t = trim_chars(&v);
            if t.len() > 0 {
                return Some(t);
            }
        }
    }
    None
}

/// The labelled value of a slot (see `labeled_value`), over its display
/// name and lore.
pub fn find_labeled_slot_value(s: &WindowSlotView, labels: &[&str]) -> (r: Option<String>)
    ensures
        r matches Some(v) ==> labeled_value(slot_lines(*s), str_views(labels@)) == Some(v@),
        r is None ==> labeled_value(slot_lines(*s), str_views(labels@)) is None,
{
    let ghost lines = slot_lines(*s);
    let ghost labs = str_views(labels@);
    assert(lines[0] == s.display_name@);
    if let Some(t) = line_value(&chars_of(s.display_name.as_str()), labels) {
        assert(labeled_value(lines, labs) == Some(t@));
        return Some(string_of(&t));
    }
    let ghost rest = string_seq(s.lore@);
    assert(lines.drop_first() =~= rest);
    let mut i: usize = 0;
    assert(rest.skip(0) =~= rest);
    while i < s.lore.len()
        invariant
            i <= s.lore.len(),
            rest == string_seq(s.lore@),
            lines == slot_lines(*s),
            labs == str_views(labels@),
            labeled_value(lines, labs) == labeled_value(rest.skip(i as int), labs),
        decreases s.lore.len() - i,
    {
        assert(rest.skip(i as int)[0] == s.lore@[i as int]@);
        assert(rest.skip(i as int).drop_first() =~= rest.skip(i + 1));
        if let Some(t) = line_value(&chars_of(s.lore[i].as_str()), labels) {
            assert(labeled_value(rest.skip(i as int), labs) == Some(t@));
            return Some(string_of(&t));
        }
        i = i + 1;
    }
    None
}

/// The labels under which a slot shows the item's tag.
pub open spec fn tag_labels() -> Seq<Seq<char>> {
    seq!["tag"@, "item tag"@, "skyblock id"@]
}

/// The item tag a slot shows, if any.
pub fn item_tag(s: &WindowSlotView) -> (r: Option<String>)
    ensures
        r matches Some(v) ==> labeled_value(slot_lines(*s), tag_labels()) == Some(v@),
        r is None ==> labeled_value(slot_lines(*s), tag_labels()) is None,
{
    let mut labels: Vec<&str> = Vec::new();
    labels.push("tag");
    labels.push("item tag");
    labels.push("skyblock id");
    assert(str_views(labels@) =~= tag_labels());
    find_labeled_slot_value(s, labels.as_slice())
}

/// A line of the price slot that names the price.
pub open spec fn names_price(l: Seq<char>) -> bool {
    let low = lower_seq(l);
    contains(low, "price"@) || contains(low, "coins"@)
}

pub open spec fn first_price_line(lines: Seq<Seq<char>>) -> Option<Seq<char>>
    decreases lines.len(),
{
    if lines.len() == 0 {
        None
    } else if names_price(lines[0]) {
        Some(lines[0])
    } else {
        first_price_line(lines.drop_first())
    }
}

/// The price text of the price slot's plain text: the first line that
/// names the price (the whole text where none does), after its first colon
/// where it has one.
pub open spec fn draft_price_text(text: Seq<char>) -> Seq<char> {
    let line = match first_price_line(text_lines(text)) {
        Some(l) => l,
        None => text,
    };
    match after_colon(line) {
        Some(v) => v,
        None => line,
    }
}

fn price_line_of(lines: &Vec<Vec<char>>) -> (r: Option<Vec<char>>)
    ensures
        match first_price_line(lines@.map_values(|w: Vec<char>| w@)) {
            Some(l) => r matches Some(v) && v@ == l,
            None => r is None,
        },
{
    let ghost lv = lines@.map_values(|w: Vec<char>| w@);
    let mut i: usize = 0;
    assert(lv.skip(0) =~= lv);
    while i < lines.len()
        invariant
            i <= lines.len(),
            lv == lines@.map_values(|w: Vec<char>| w@),
            first_price_line(lv) == first_price_line(lv.skip(i as int)),
        decreases lines.len() - i,
    {
        assert(lv.skip(i as int)[0] == lines@[i as int]@);
        assert(lv.skip(i as int).drop_first() =~= lv.skip(i + 1));
        let low = lower_chars(&lines[i]);
        if lower_has(&low, "price") || lower_has(&low, "coins") {
            return Some(lines[i].clone());
        }
        i = i + 1;
    }
    assert(lv.skip(i as int).len() == 0);
    None
}

fn price_text_of(text: &Vec<char>) -> (r: Vec<char>)
    ensures
        r@ == draft_price_text(text@),
{
    let st = string_of(text);
    let lines = lines_of(st.as_str());
    let line = match price_line_of(&lines) {
        Some(l) => l,
        None => text.clone(),
    };
    match text_after_colon(&line) {
        Some(v) => v,
        None => line,
    }
}

/// The slot picked as the draft's item: the first slot numbered 13 that
/// holds an item.
pub open spec fn draft_item_pick(s: WindowSlotView) -> bool {
    s.slot == 13 && draft_item_selected(s)
}

pub open spec fn item_slot_choice(slots: Seq<WindowSlotView>, r: Option<usize>) -> bool {
    match r {
        Some(i) => i < slots.len() && draft_item_pick(slots[i as int]) && forall|j: int|
            0 <= j < i ==> !draft_item_pick(#[trigger] slots[j]),
        None => forall|j: int| 0 <= j < slots.len() ==> !draft_item_pick(#[trigger] slots[j]),
    }
}

/// What the create-auction window shows of a draft: where its item and
/// price are, the item's name, id and tag, and the price as written.
#[derive(Clone, Debug)]
pub struct PendingDraftReading {
    /// Index of the item slot in the window's slots.
    pub item_index: usize,
    /// Index of the price slot in the window's slots.
    pub price_index: usize,
    /// The item slot's number.
    pub item_slot: usize,
    pub item_name: String,
    pub item_uuid: Option<String>,
    pub tag: Option<String>,
    pub price_text: String,
}

pub open spec fn opt_view(o: Option<String>) -> Option<Seq<char>> {
    match o {
        Some(v) => Some(v@),
        None => None,
    }
}

/// The create-auction window.
pub open spec fn create_auction_window(w: WindowView) -> bool {
    title_mentions(w, "create"@) && title_mentions(w, "auction"@)
}

/// `d` is what `w` shows of its draft.
pub open spec fn draft_reading(w: WindowView, d: PendingDraftReading) -> bool {
    let item = w.slots@[d.item_index as int];
    &&& create_auction_window(w)
    &&& item_slot_choice(w.slots@, Some(d.item_index))
    &&& price_slot_choice(w.slots@, Some(d.price_index))
    &&& d.item_slot == item.slot
    &&& d.item_name@ == draft_name(item)
    &&& opt_view(d.item_uuid) == uuid_view(item)
    &&& opt_view(d.tag) == labeled_value(slot_lines(item), tag_labels())
    &&& d.price_text@ == draft_price_text(plain_text(w.slots@[d.price_index as int]))
}

fn draft_item_index(w: &WindowView) -> (r: Option<usize>)
    ensures
        item_slot_choice(w.slots@, r),
{
    let mut i: usize = 0;
    while i < w.slots.len()
        invariant
            i <= w.slots.len(),
            forall|j: int| 0 <= j < i ==> !draft_item_pick(#[trigger] w.slots@[j]),
        decreases w.slots.len() - i,
    {
        if w.slots[i].slot == 13 && selected_draft_item_slot(&w.slots[i]) {
            return Some(i);
        }
        i = i + 1;
    }
    None
}

/// Reads the draft off a create-auction window: none where the window is
/// another one, holds no item in slot 13, or shows no price slot.
pub fn pending_create_auction_draft(w: &WindowView) -> (r: Option<PendingDraftReading>)
    ensures
        match r {
            Some(d) => draft_reading(*w, d),
            None => !create_auction_window(*w) || item_slot_choice(w.slots@, None)
                || price_slot_choice(w.slots@, None),
        },
{
    if !is_create_auction_window(w) {
        return None;
    }
    let item_index = match draft_item_index(w) {
        Some(k) => k,
        None => return None,
    };
    let price_index = match pending_draft_price_slot(w) {
        Some(p) => p,
        None => return None,
    };
    let item = &w.slots[item_index];
    let text = slot_plain_text(&w.slots[price_index]);
    Some(PendingDraftReading {
        item_index,
        price_index,
        item_slot: item.slot,
        item_name: draft_item_name(item),
        item_uuid: item.item_uuid.clone(),
        tag: item_tag(item),
        price_text: string_of(&price_text_of(&text)),
    })
}

/// A lore line that carries the listing's price.
pub open spec fn listing_price_line(l: Seq<char>) -> bool {
    let low = lower_seq(strip_colors(l));
    contains(low, "buy it now"@) || contains(low, "starting bid"@)
}

pub open spec fn first_listing_line(lines: Seq<Seq<char>>) -> Option<Seq<char>>
    decreases lines.len(),
{
    if lines.len() == 0 {
        None
    } else if listing_price_line(lines[0]) {
        Some(lines[0])
    } else {
        first_listing_line(lines.drop_first())
    }
}

/// What an expired auction's slot shows: its item id, name and tag, and
/// the price it was listed at, as written.
#[derive(Clone, Debug)]
pub struct ExpiredSlotReading {
    pub item_uuid: String,
    pub name: String,
    pub tag: Option<String>,
    pub price_text: String,
}

/// The text after the first colon of `l` without colour codes, or all of it.
pub open spec fn value_part(l: Seq<char>) -> Seq<char> {
    match after_colon(strip_colors(l)) {
        Some(v) => v,
        None => strip_colors(l),
    }
}

/// The name of an expired auction: the display name without colour codes,
/// or the item id where the display name is blank.
pub open spec fn expired_name(s: WindowSlotView) -> Seq<char> {
    if trim(s.display_name@).len() == 0 {
        s.name@
    } else {
        strip_colors(s.display_name@)
    }
}

/// `r` is what slot `s` shows of an expired auction: none where the slot
/// has no item id or no lore line with the listing's price.
pub open spec fn expired_reading(s: WindowSlotView, r: Option<ExpiredSlotReading>) -> bool {
    match (s.item_uuid, first_listing_line(string_seq(s.lore@))) {
        (Some(u), Some(line)) => r matches Some(e) && {
            &&& e.item_uuid@ == u@
            &&& e.name@ == expired_name(s)
            &&& opt_view(e.tag) == labeled_value(slot_lines(s), tag_labels())
            &&& e.price_text@ == value_part(line)
        },
        _ => r is None,
    }
}

fn listing_line_of(s: &WindowSlotView) -> (r: Option<Vec<char>>)
    ensures
        match first_listing_line(string_seq(s.lore@)) {
            Some(l) => r matches Some(v) && v@ == l,
            None => r is None,
        },
{
    let ghost lv = string_seq(s.lore@);
    let mut i: usize = 0;
    assert(lv.skip(0) =~= lv);
    while i < s.lore.len()
        invariant
            i <= s.lore.len(),
            lv == string_seq(s.lore@),
            first_listing_line(lv) == first_listing_line(lv.skip(i as int)),
        decreases s.lore.len() - i,
    {
        assert(lv.skip(i as int)[0] == s.lore@[i as int]@);
        assert(lv.skip(i as int).drop_first() =~= lv.skip(i + 1));
        let raw = chars_of(s.lore[i].as_str());
        let low = lower_chars(&strip_color_codes(&raw));
        if lower_has(&low, "buy it now") || lower_has(&low, "starting bid") {
            return Some(raw);
        }
        i = i + 1;
    }
    None
}

/// Reads an expired auction off its slot in the manage window.
pub fn expired_auction_from_slot(s: &WindowSlotView) -> (r: Option<ExpiredSlotReading>)
    ensures
        expired_reading(*s, r),
{
    let uuid = match &s.item_uuid {
        Some(u) => u.clone(),
        None => return None,
    };
    let line = match listing_line_of(s) {
        Some(l) => l,
        None => return None,
    };
    let plain = strip_color_codes(&line);
    let price = match text_after_colon(&plain) {
        Some(v) => v,
        None => plain,
    };
    let display = chars_of(s.display_name.as_str());
    let name = if trim_chars(&display).len() == 0 {
        s.name.clone()
    } else {
        string_of(&strip_color_codes(&display))
    };
    Some(ExpiredSlotReading { item_uuid: uuid, name, tag: item_tag(s), price_text: string_of(&price) })
}

/// The slot that holds the item with id `uuid`, and what it shows of the
/// expired auction: the first slot whose item id is `uuid`, none where no
/// slot has it.
pub fn expired_claim_from_window(uuid: &str, w: &WindowView) -> (r: Option<(usize, Option<ExpiredSlotReading>)>)
    ensures
        match r {
            Some((n, e)) => exists|i: int|
                0 <= i < w.slots@.len() && uuid_view(#[trigger] w.slots@[i]) == Some(uuid@)
                    && (forall|j: int| 0 <= j < i ==> uuid_view(#[trigger] w.slots@[j]) != Some(uuid@))
                    && n == w.slots@[i].slot && expired_reading(w.slots@[i], e),
            None => forall|j: int| 0 <= j < w.slots@.len() ==> uuid_view(#[trigger] w.slots@[j]) != Some(uuid@),
        },
{
    let mut i: usize = 0;
    while i < w.slots.len()
        invariant
            i <= w.slots.len(),
            forall|j: int| 0 <= j < i ==> uuid_view(#[trigger] w.slots@[j]) != Some(uuid@),
        decreases w.slots.len() - i,
    {
        let hit = match &w.slots[i].item_uuid {
            Some(u) => crate::text::str_equal(u.as_str(), uuid),
            None => false,
        };
        if hit {
            let e = expired_auction_from_slot(&w.slots[i]);
            assert(uuid_view(w.slots@[i as int]) == Some(uuid@));
            return Some((w.slots[i].slot, e));
        }
        i = i + 1;
    }
    None
}

} // verus!
