//! Stores that record what the inbox asked of the runtime instead of doing
//! it, and the rules by which a recorded store and a file store answer
//! together.
use vstd::prelude::*;
use crate::account_rotation::ScheduledAccountAction;
use crate::inbox::{LifecycleAction, StatsRequestKind};
use crate::queue_store::{of_account, not_of_account, RecordedQueueStore};
use crate::blacklist_rules::{BlacklistField, BlacklistScope};
use crate::blacklist_store::BlacklistUpdateInput;
use crate::blacklist_update::BlacklistAction;
use crate::text::{chars_of, concat_chars, string_of};

verus! {

/// What clearing an account's saved data removed.
#[derive(Clone, Copy, Debug, PartialEq, Eq, Structural)]
pub struct SavedDataClear {
    pub queue_removed: usize,
    pub bid_data_cleared: bool,
}

/// A recorded clear of an account's saved data.
#[derive(Clone, Debug)]
pub struct SavedDataClearRecord {
    pub account: String,
    pub queue_removed: usize,
    pub bid_data_cleared: bool,
}

/// Saved data kept in the recorded queue: clearing it empties the
/// account's queue (there is no bid data) and records the clear.
pub struct RecordedSavedDataStore<A, S> {
    pub queue: RecordedQueueStore<A, S>,
    pub records: Vec<SavedDataClearRecord>,
}

impl<A, S> RecordedSavedDataStore<A, S> {
    pub fn new(queue: RecordedQueueStore<A, S>) -> (r: Self)
        ensures
            r.queue@ == queue@,
            r.records@.len() == 0,
    {
        RecordedSavedDataStore { queue, records: Vec::new() }
    }

    pub fn clear_saved_data(&mut self, account: &str) -> (r: SavedDataClear)
        requires
            old(self).queue.wf(),
        ensures
            final(self).queue.wf(),
            final(self).queue@ == not_of_account(old(self).queue@, account@),
            r.queue_removed == of_account(old(self).queue@, account@).len(),
            !r.bid_data_cleared,
            final(self).records@.len() == old(self).records@.len() + 1,
            final(self).records@.drop_last() == old(self).records@,
            final(self).records@.last().account@ == account@,
            final(self).records@.last().queue_removed == r.queue_removed,
            !final(self).records@.last().bid_data_cleared,
    {
        let removed = self.queue.clear(account);
        let result = SavedDataClear { queue_removed: removed, bid_data_cleared: false };
        self.record_clear(account, result);
        result
    }

    /// Records a clear of `account` that removed `result`.
    pub fn record_clear(&mut self, account: &str, result: SavedDataClear)
        ensures
            final(self).queue@ == old(self).queue@,
            final(self).records@.len() == old(self).records@.len() + 1,
            final(self).records@.drop_last() == old(self).records@,
            final(self).records@.last().account@ == account@,
            final(self).records@.last().queue_removed == result.queue_removed,
            final(self).records@.last().bid_data_cleared == result.bid_data_cleared,
    {
        let ghost before = self.records@;
        self.records.push(
            SavedDataClearRecord {
                account: string_of(&chars_of(account)),
                queue_removed: result.queue_removed,
                bid_data_cleared: result.bid_data_cleared,
            },
        );
        assert(self.records@.drop_last() =~= before);
    }
}

/// What a clear through both the recorded and the file store reports: the
/// larger number of removed entries, and the file store's bid data.
pub fn tee_saved_data_clear(recorded_queue_removed: usize, file: SavedDataClear) -> (r: SavedDataClear)
    ensures
        r.queue_removed == (if recorded_queue_removed > file.queue_removed {
            recorded_queue_removed
        } else {
            file.queue_removed
        }),
        r.bid_data_cleared == file.bid_data_cleared,
{
    SavedDataClear {
        queue_removed: if recorded_queue_removed > file.queue_removed {
            recorded_queue_removed
        } else {
            file.queue_removed
        },
        bid_data_cleared: file.bid_data_cleared,
    }
}

/// An add through both stores changed something when either changed.
pub fn tee_queue_added(recorded_changed: bool, file_changed: bool) -> (r: bool)
    ensures
        r == (recorded_changed || file_changed),
{
    recorded_changed || file_changed
}

/// A clear through both stores reports the larger count.
pub fn tee_queue_cleared(recorded: usize, file: usize) -> (r: usize)
    ensures
        r == (if recorded > file { recorded } else { file }),
{
    if recorded > file {
        recorded
    } else {
        file
    }
}

/// A recorded request for an account's statistics.
#[derive(Clone, Debug)]
pub struct StatsRequestRecord {
    pub account: String,
    pub kind: StatsRequestKind,
}

/// Records the statistics and ping requests, in order.
pub struct RecordedStatsProvider {
    pub records: Vec<StatsRequestRecord>,
}

impl RecordedStatsProvider {
    pub fn new() -> (r: Self)
        ensures
            r.records@.len() == 0,
    {
        RecordedStatsProvider { records: Vec::new() }
    }

    pub fn record(&mut self, account: &str, kind: StatsRequestKind)
        ensures
            final(self).records@.len() == old(self).records@.len() + 1,
            final(self).records@.drop_last() == old(self).records@,
            final(self).records@.last().account@ == account@,
            final(self).records@.last().kind == kind,
    {
        let ghost before = self.records@;
        self.records.push(StatsRequestRecord { account: string_of(&chars_of(account)), kind });
        assert(self.records@.drop_last() =~= before);
    }
}

/// A recorded start or stop; a stop without an account stops them all.
#[derive(Clone, Debug)]
pub struct LifecycleRecord {
    pub action: LifecycleAction,
    pub account: Option<String>,
}

/// Records the account starts and stops, in order.
pub struct RecordedAccountSupervisor {
    pub actions: Vec<LifecycleRecord>,
}

impl RecordedAccountSupervisor {
    pub fn new() -> (r: Self)
        ensures
            r.actions@.len() == 0,
    {
        RecordedAccountSupervisor { actions: Vec::new() }
    }

    pub fn start(&mut self, account: &str)
        ensures
            final(self).actions@.len() == old(self).actions@.len() + 1,
            final(self).actions@.drop_last() == old(self).actions@,
            final(self).actions@.last().action == LifecycleAction::Start,
            final(self).actions@.last().account matches Some(a) && a@ == account@,
    {
        let ghost before = self.actions@;
        self.actions.push(LifecycleRecord { action: LifecycleAction::Start, account: Some(string_of(&chars_of(account))) });
        assert(self.actions@.drop_last() =~= before);
    }

    pub fn stop(&mut self, account: Option<String>)
        ensures
            final(self).actions@.len() == old(self).actions@.len() + 1,
            final(self).actions@.drop_last() == old(self).actions@,
            final(self).actions@.last().action == LifecycleAction::Stop,
            final(self).actions@.last().account == account,
    {
        let ghost before = self.actions@;
        self.actions.push(LifecycleRecord { action: LifecycleAction::Stop, account });
        assert(self.actions@.drop_last() =~= before);
    }
}


/// A request to start or stop an account after a delay.
#[derive(Clone, Debug)]
pub struct AccountScheduleRequest {
    pub account: String,
    pub action: ScheduledAccountAction,
    pub delay_ms: u64,
}

/// Records the scheduling requests, in order, and accepts each as asked.
pub struct RecordedAccountScheduler {
    pub records: Vec<AccountScheduleRequest>,
}

impl RecordedAccountScheduler {
    pub fn new() -> (r: Self)
        ensures
            r.records@.len() == 0,
    {
        RecordedAccountScheduler { records: Vec::new() }
    }

    /// Records `request` and reports it scheduled as asked.
    pub fn schedule(&mut self, request: AccountScheduleRequest) -> (r: AccountScheduleRequest)
        ensures
            final(self).records@.len() == old(self).records@.len() + 1,
            final(self).records@.drop_last() == old(self).records@,
            final(self).records@.last().account@ == request.account@,
            final(self).records@.last().action == request.action,
            final(self).records@.last().delay_ms == request.delay_ms,
            r.account@ == request.account@,
            r.action == request.action,
            r.delay_ms == request.delay_ms,
    {
        let ghost before = self.records@;
        let copy = AccountScheduleRequest {
            account: string_of(&chars_of(request.account.as_str())),
            action: request.action,
            delay_ms: request.delay_ms,
        };
        self.records.push(copy);
        assert(self.records@.drop_last() =~= before);
        request
    }
}

/// A blacklist request of the inbox: list the rules, or update one.
#[derive(Debug)]
pub enum BlacklistRequest {
    List,
    Update(BlacklistUpdateInput),
}

/// What a blacklist store answers.
#[derive(Clone, Debug)]
pub struct BlacklistApplyResult {
    pub changed: bool,
    pub summary: String,
}

/// A recorded blacklist request.
#[derive(Debug)]
pub struct BlacklistRecord {
    pub account: String,
    pub request: BlacklistRequest,
    pub changed: bool,
    pub summary: String,
}

pub open spec fn action_label(a: BlacklistAction) -> Seq<char> {
    match a {
        BlacklistAction::Add => "Add"@,
        BlacklistAction::Remove => "Remove"@,
        BlacklistAction::List => "List"@,
    }
}

pub open spec fn scope_label(s: BlacklistScope) -> Seq<char> {
    match s {
        BlacklistScope::Buy => "Buy"@,
        BlacklistScope::Relist => "Relist"@,
    }
}

pub open spec fn field_label(f: BlacklistField) -> Seq<char> {
    match f {
        BlacklistField::Tag => "Tag"@,
        BlacklistField::Name => "Name"@,
        BlacklistField::Enchant => "Enchant"@,
        BlacklistField::ItemEnchant => "ItemEnchant"@,
    }
}

/// The summary a recorded store gives: `listed blacklist rules` for a
/// listing, else the update as `Action Scope.Field value`.
pub open spec fn recorded_blacklist_summary(request: BlacklistRequest) -> Seq<char> {
    match request {
        BlacklistRequest::List => "listed blacklist rules"@,
        BlacklistRequest::Update(u) => action_label(u.action) + " "@ + scope_label(u.scope) + "."@
            + field_label(u.field) + " "@ + u.value@,
    }
}

fn action_text(a: BlacklistAction) -> (r: &'static str)
    ensures
        r@ == action_label(a),
{
    match a {
        BlacklistAction::Add => "Add",
        BlacklistAction::Remove => "Remove",
        BlacklistAction::List => "List",
    }
}

fn scope_text(s: BlacklistScope) -> (r: &'static str)
    ensures
        r@ == scope_label(s),
{
    match s {
        BlacklistScope::Buy => "Buy",
        BlacklistScope::Relist => "Relist",
    }
}

fn field_text(f: BlacklistField) -> (r: &'static str)
    ensures
        r@ == field_label(f),
{
    match f {
        BlacklistField::Tag => "Tag",
        BlacklistField::Name => "Name",
        BlacklistField::Enchant => "Enchant",
        BlacklistField::ItemEnchant => "ItemEnchant",
    }
}

/// Records the blacklist requests instead of applying them; every request
/// is answered as a change.
pub struct RecordedBlacklistStore {
    pub records: Vec<BlacklistRecord>,
}

impl RecordedBlacklistStore {
    pub fn new() -> (r: Self)
        ensures
            r.records@.len() == 0,
    {
        RecordedBlacklistStore { records: Vec::new() }
    }

    pub fn apply(&mut self, account: &str, request: BlacklistRequest) -> (r: BlacklistApplyResult)
        ensures
            r.changed,
            r.summary@ == recorded_blacklist_summary(request),
            final(self).records@.len() == old(self).records@.len() + 1,
            final(self).records@.drop_last() == old(self).records@,
            final(self).records@.last().account@ == account@,
            final(self).records@.last().request == request,
            final(self).records@.last().changed,
            final(self).records@.last().summary@ == r.summary@,
    {
        let summary = match &request {
            BlacklistRequest::List => string_of(&chars_of("listed blacklist rules")),
            BlacklistRequest::Update(u) => {
                let mut out = chars_of(action_text(u.action));
                out = concat_chars(&out, &chars_of(" "));
                out = concat_chars(&out, &chars_of(scope_text(u.scope)));
                out = concat_chars(&out, &chars_of("."));
                out = concat_chars(&out, &chars_of(field_text(u.field)));
                out = concat_chars(&out, &chars_of(" "));
                out = concat_chars(&out, &chars_of(u.value.as_str()));
                string_of(&out)
            },
        };
        let ghost before = self.records@;
        let record_summary = string_of(&chars_of(summary.as_str()));
        self.records.push(BlacklistRecord {
            account: string_of(&chars_of(account)),
            request,
            changed: true,
            summary: record_summary,
        });
        assert(self.records@.drop_last() =~= before);
        BlacklistApplyResult { changed: true, summary }
    }
}

} // verus!
