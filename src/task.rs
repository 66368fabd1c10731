use vstd::prelude::*;

verus! {

/// How a task picks what to reserve.
#[derive(Debug, Clone, PartialEq, Eq)]
pub struct TaskOptions {
    /// The wanted price per unit in major currency units.
    pub target_price: Option<i32>,
    pub target_name: Option<String>,
    pub use_regex: bool,
    /// When set, variants that require a membership may be chosen too.
    pub ignore_membership: bool,
}

impl Default for TaskOptions {
    fn default() -> (r: Self)
        ensures
            r.target_price is None,
            r.target_name is None,
            !r.use_regex,
            r.ignore_membership,
    {
        TaskOptions { target_price: None, target_name: None, use_regex: false, ignore_membership: true }
    }
}

/// Milliseconds between a task's firing and the sale's start, to absorb
/// network latency.
pub const LEAD_TIME_MS: i64 = 10_000;

/// Where a task stands in its lifecycle.
#[derive(Debug, Clone, Copy, PartialEq, Eq, Structural)]
pub enum TaskState {
    New,
    InProgress,
    Finished,
    Failed,
    Retried,
}

impl TaskState {
    /// `Finished` and `Failed` are final.
    pub open spec fn spec_is_terminal(self) -> bool {
        self is Finished || self is Failed
    }

    /// Only `New` and `Retried` tasks may be claimed, or edited.
    pub open spec fn spec_is_claimable(self) -> bool {
        self is New || self is Retried
    }

    pub fn is_terminal(&self) -> (r: bool)
        ensures
            r == self.spec_is_terminal(),
    {
        match self {
            TaskState::Finished | TaskState::Failed => true,
            _ => false,
        }
    }

    pub fn is_claimable(&self) -> (r: bool)
        ensures
            r == self.spec_is_claimable(),
    {
        match self {
            TaskState::New | TaskState::Retried => true,
            _ => false,
        }
    }
}

/// A deferred purchase attempt for one sale: the sale's id, the accounts
/// to buy with (as 128-bit account ids), the announced sale start in
/// milliseconds since the Unix epoch, and the selection options.
#[derive(Debug, Clone, PartialEq, Eq)]
pub struct ScalpingTask {
    pub event_id: String,
    pub account_ids: Vec<u128>,
    pub sale_start: i64,
    pub options: TaskOptions,
}

impl ScalpingTask {
    pub fn new(event_id: String, account_ids: Vec<u128>, sale_start: i64, options: TaskOptions) -> (r: Self)
        ensures
            r.event_id == event_id,
            r.account_ids == account_ids,
            r.sale_start == sale_start,
            r.options == options,
    {
        ScalpingTask { event_id, account_ids, sale_start, options }
    }

    /// The moment the task fires: the lead time before the sale starts.
    pub fn fire_time(&self) -> (r: i128)
        ensures
            r == self.sale_start - LEAD_TIME_MS,
    {
        self.sale_start as i128 - LEAD_TIME_MS as i128
    }
}

} // verus!
