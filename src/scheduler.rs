use vstd::prelude::*;
use crate::task::{ScalpingTask, TaskOptions, TaskState};

verus! {

/// Why a request to the scheduler was turned down.
#[derive(Debug, Clone, Copy, PartialEq, Eq, Structural)]
pub enum SchedulerError {
    /// A task for the same sale is still pending or running.
    DuplicateTask,
    /// No task is known for the sale, or at the index.
    NotFound,
    /// The task is running or already done.
    InvalidState,
}

/// A stored task with its lifecycle state, the moment it becomes due and
/// the number of retries it has had.
#[derive(Debug, Clone, PartialEq, Eq)]
pub struct ScheduledTask {
    pub task: ScalpingTask,
    pub state: TaskState,
    /// Milliseconds since the Unix epoch.
    pub fire_at: i128,
    pub retries: u32,
}

/// Whether the stored task at `i` is not final and belongs to sale `id`.
pub open spec fn active_at(tasks: Seq<ScheduledTask>, i: int, id: Seq<char>) -> bool {
    0 <= i < tasks.len() && !tasks[i].state.spec_is_terminal() && tasks[i].task.event_id@ == id
}

/// Whether some non-final task for sale `id` is stored.
pub open spec fn has_active(tasks: Seq<ScheduledTask>, id: Seq<char>) -> bool {
    exists|i: int| active_at(tasks, i, id)
}

/// Whether any task for sale `id` is stored, final or not.
pub open spec fn has_any(tasks: Seq<ScheduledTask>, id: Seq<char>) -> bool {
    exists|i: int| 0 <= i < tasks.len() && #[trigger] tasks[i].task.event_id@ == id
}

/// At most one non-final task per sale.
pub open spec fn unique_active(tasks: Seq<ScheduledTask>) -> bool {
    forall|i: int, j: int|
        #![trigger tasks[i], tasks[j]]
        0 <= i < tasks.len() && 0 <= j < tasks.len() && i != j && !tasks[i].state.spec_is_terminal()
            && !tasks[j].state.spec_is_terminal() ==> tasks[i].task.event_id@
            != tasks[j].task.event_id@
}

/// The index of the non-final task for sale `id`, where there is one.
pub open spec fn active_index(tasks: Seq<ScheduledTask>, id: Seq<char>) -> int {
    choose|i: int| active_at(tasks, i, id)
}

/// The record a newly scheduled task is stored as.
pub open spec fn new_record(task: ScalpingTask, lead_time_ms: u32) -> ScheduledTask {
    ScheduledTask {
        task,
        state: TaskState::New,
        fire_at: (task.sale_start - lead_time_ms) as i128,
        retries: 0,
    }
}

/// What scheduling `task` does to the stored tasks, and its answer.
pub open spec fn schedule_outcome(
    tasks: Seq<ScheduledTask>,
    task: ScalpingTask,
    lead_time_ms: u32,
) -> (Seq<ScheduledTask>, Result<(), SchedulerError>) {
    if has_active(tasks, task.event_id@) {
        (tasks, Err(SchedulerError::DuplicateTask))
    } else {
        (tasks.push(new_record(task, lead_time_ms)), Ok(()))
    }
}

/// The answer to an edit of the task for sale `id`: `NotFound` where none
/// is stored, `InvalidState` where none of them is `New` or `Retried`.
pub open spec fn edit_outcome(tasks: Seq<ScheduledTask>, id: Seq<char>) -> Result<
    (),
    SchedulerError,
> {
    if !has_any(tasks, id) {
        Err(SchedulerError::NotFound)
    } else if has_active(tasks, id) && tasks[active_index(tasks, id)].state.spec_is_claimable() {
        Ok(())
    } else {
        Err(SchedulerError::InvalidState)
    }
}

/// Whether the task at `i` may be claimed at `now`.
pub open spec fn due_at(tasks: Seq<ScheduledTask>, i: int, now: i64) -> bool {
    0 <= i < tasks.len() && tasks[i].state.spec_is_claimable() && tasks[i].fire_at <= now
}

/// The state a running task moves to when it ends.
pub open spec fn end_state(succeeded: bool, retries: u32, max_retries: u32) -> TaskState {
    if succeeded {
        TaskState::Finished
    } else if retries < max_retries {
        TaskState::Retried
    } else {
        TaskState::Failed
    }
}

/// Scheduling the same sale twice while its first task is pending stores
/// one task only, and the second call is answered `DuplicateTask`.
pub proof fn lemma_schedule_twice(tasks: Seq<ScheduledTask>, task: ScalpingTask, lead_time_ms: u32)
    requires
        unique_active(tasks),
    ensures
        ({
            let (once, _) = schedule_outcome(tasks, task, lead_time_ms);
            let (twice, second) = schedule_outcome(once, task, lead_time_ms);
            &&& second == Err::<(), SchedulerError>(SchedulerError::DuplicateTask)
            &&& twice == once
            &&& has_active(twice, task.event_id@)
            &&& forall|i: int, j: int|
                active_at(twice, i, task.event_id@) && active_at(twice, j, task.event_id@) ==> i
                    == j
        }),
{
    let id = task.event_id@;
    let (once, _) = schedule_outcome(tasks, task, lead_time_ms);
    if has_active(tasks, id) {
        let k = choose|k: int| active_at(tasks, k, id);
        assert(active_at(once, k, id));
        assert forall|i: int, j: int|
            active_at(once, i, id) && active_at(once, j, id) implies i == j by {
            if i != j {
                assert(once[i] == tasks[i] && once[j] == tasks[j]);
            }
        }
    } else {
        let k = tasks.len() as int;
        assert(active_at(once, k, id));
        assert forall|i: int, j: int|
            active_at(once, i, id) && active_at(once, j, id) implies i == j by {
            if i != j {
                if i < k && j < k {
                    assert(once[i] == tasks[i]);
                } else if i < k {
                    assert(active_at(tasks, i, id));
                } else {
                    assert(active_at(tasks, j, id));
                }
            }
        }
    }
}

/// Whether a new task may be stored for a sale whose stored tasks are in
/// `existing` states: `DuplicateTask` while one of them is not final.
pub fn admit_new_task(existing: &Vec<TaskState>) -> (r: Result<(), SchedulerError>)
    ensures
        r is Ok <==> forall|i: int| 0 <= i < existing@.len() ==> (#[trigger] existing@[i]).spec_is_terminal(),
        r is Err ==> r == Err::<(), SchedulerError>(SchedulerError::DuplicateTask),
{
    for i in 0..existing.len()
        invariant
            forall|j: int| 0 <= j < i ==> (#[trigger] existing@[j]).spec_is_terminal(),
    {
        if !existing[i].is_terminal() {
            return Err(SchedulerError::DuplicateTask);
        }
    }
    Ok(())
}

/// A newly scheduled task is due exactly the lead time before its sale
/// starts, and no claim takes it earlier.
pub proof fn lemma_fires_at_lead_time(
    tasks: Seq<ScheduledTask>,
    task: ScalpingTask,
    lead_time_ms: u32,
    now: i64,
)
    requires
        !has_active(tasks, task.event_id@),
    ensures
        ({
            let (after, _) = schedule_outcome(tasks, task, lead_time_ms);
            let k = after.len() - 1;
            &&& after[k].task == task
            &&& after[k].state == TaskState::New
            &&& after[k].fire_at == task.sale_start - lead_time_ms
            &&& due_at(after, k, now) <==> now >= task.sale_start - lead_time_ms
        }),
{
}

/// The store of deferred tasks with their lifecycle. At most one task per
/// sale is pending or running at a time.
pub struct TaskScheduler {
    tasks: Vec<ScheduledTask>,
    lead_time_ms: u32,
    max_retries: u32,
}

impl TaskScheduler {
    pub closed spec fn tasks(&self) -> Seq<ScheduledTask> {
        self.tasks@
    }

    pub closed spec fn lead_time(&self) -> u32 {
        self.lead_time_ms
    }

    pub closed spec fn retry_limit(&self) -> u32 {
        self.max_retries
    }

    pub open spec fn wf(&self) -> bool {
        unique_active(self.tasks())
    }

    /// An empty scheduler whose tasks fire `lead_time_ms` before their sale
    /// and are retried at most `max_retries` times.
    pub fn new(lead_time_ms: u32, max_retries: u32) -> (r: Self)
        ensures
            r.wf(),
            r.tasks() == Seq::<ScheduledTask>::empty(),
            r.lead_time() == lead_time_ms,
            r.retry_limit() == max_retries,
    {
        TaskScheduler { tasks: Vec::new(), lead_time_ms, max_retries }
    }

    pub fn len(&self) -> (r: usize)
        ensures
            r == self.tasks().len(),
    {
        self.tasks.len()
    }

    /// The stored task at `index`.
    pub fn get(&self, index: usize) -> (r: Option<&ScheduledTask>)
        ensures
            index < self.tasks().len() ==> r == Some(&self.tasks()[index as int]),
            index >= self.tasks().len() ==> r is None,
    {
        if index < self.tasks.len() {
            Some(&self.tasks[index])
        } else {
            None
        }
    }

    /// The index of the non-final task for sale `event_id`, if any.
    pub fn find_active(&self, event_id: &String) -> (r: Option<usize>)
        requires
            self.wf(),
        ensures
            r is None <==> !has_active(self.tasks(), event_id@),
            r matches Some(i) ==> active_at(self.tasks(), i as int, event_id@) && i
                == active_index(self.tasks(), event_id@),
    {
        let mut i: usize = 0;
        while i < self.tasks.len()
            invariant
                i <= self.tasks@.len(),
                unique_active(self.tasks@),
                forall|j: int| 0 <= j < i ==> !active_at(self.tasks@, j, event_id@),
            decreases self.tasks@.len() - i,
        {
            let t = &self.tasks[i];
            if !t.state.is_terminal() && t.task.event_id == *event_id {
                proof {
                    let k = active_index(self.tasks@, event_id@);
                    assert(active_at(self.tasks@, i as int, event_id@));
                    assert(active_at(self.tasks@, k, event_id@));
                    assert(self.tasks@[k].task.event_id@ == self.tasks@[i as int].task.event_id@);
                }
                return Some(i);
            }
            i = i + 1;
        }
        None
    }

    /// Whether any task for sale `event_id` is stored.
    fn find_any(&self, event_id: &String) -> (r: bool)
        ensures
            r == has_any(self.tasks(), event_id@),
    {
        let mut i: usize = 0;
        while i < self.tasks.len()
            invariant
                i <= self.tasks@.len(),
                forall|j: int| 0 <= j < i ==> self.tasks@[j].task.event_id@ != event_id@,
            decreases self.tasks@.len() - i,
        {
            if self.tasks[i].task.event_id == *event_id {
                return true;
            }
            i = i + 1;
        }
        false
    }

    /// Stores `task` as `New`, due the lead time before its sale starts;
    /// `DuplicateTask` while a task for the same sale is pending or running.
    pub fn schedule(&mut self, task: ScalpingTask) -> (r: Result<(), SchedulerError>)
        requires
            old(self).wf(),
        ensures
            final(self).wf(),
            final(self).lead_time() == old(self).lead_time(),
            final(self).retry_limit() == old(self).retry_limit(),
            (final(self).tasks(), r) == schedule_outcome(
                old(self).tasks(),
                task,
                old(self).lead_time(),
            ),
    {
        if self.find_active(&task.event_id).is_some() {
            return Err(SchedulerError::DuplicateTask);
        }
        let ghost before = self.tasks@;
        let ghost id = task.event_id@;
        let fire_at = task.sale_start as i128 - self.lead_time_ms as i128;
        self.tasks.push(ScheduledTask { task, state: TaskState::New, fire_at, retries: 0 });
        proof {
            let after = self.tasks@;
            let n = before.len() as int;
            assert forall|i: int, j: int|
                #![trigger after[i], after[j]]
                0 <= i < after.len() && 0 <= j < after.len() && i != j
                    && !after[i].state.spec_is_terminal() && !after[j].state.spec_is_terminal()
                    implies after[i].task.event_id@ != after[j].task.event_id@ by {
                if i == n {
                    assert(!active_at(before, j, id));
                } else if j == n {
                    assert(!active_at(before, i, id));
                } else {
                    assert(after[i] == before[i] && after[j] == before[j]);
                }
            }
        }
        Ok(())
    }

    /// Removes the pending task for sale `event_id`.
    pub fn cancel(&mut self, event_id: &String) -> (r: Result<(), SchedulerError>)
        requires
            old(self).wf(),
        ensures
            final(self).wf(),
            final(self).lead_time() == old(self).lead_time(),
            final(self).retry_limit() == old(self).retry_limit(),
            r == edit_outcome(old(self).tasks(), event_id@),
            r is Ok ==> final(self).tasks() == old(self).tasks().remove(
                active_index(old(self).tasks(), event_id@),
            ),
            r is Err ==> final(self).tasks() == old(self).tasks(),
    {
        match self.find_active(event_id) {
            Some(i) => {
                if self.tasks[i].state.is_claimable() {
                    let ghost before = self.tasks@;
                    self.tasks.remove(i);
                    proof {
                        let after = self.tasks@;
                        assert forall|a: int, b: int|
                            #![trigger after[a], after[b]]
                            0 <= a < after.len() && 0 <= b < after.len() && a != b
                                && !after[a].state.spec_is_terminal()
                                && !after[b].state.spec_is_terminal() implies after[a].task.event_id@
                            != after[b].task.event_id@ by {
                            let oa = if a < i { a } else { a + 1 };
                            let ob = if b < i { b } else { b + 1 };
                            assert(after[a] == before[oa] && after[b] == before[ob]);
                        }
                    }
                    Ok(())
                } else {
                    Err(SchedulerError::InvalidState)
                }
            },
            None => {
                if self.find_any(event_id) {
                    Err(SchedulerError::InvalidState)
                } else {
                    Err(SchedulerError::NotFound)
                }
            },
        }
    }

    /// Replaces the options of the pending task for sale `event_id`.
    pub fn update(&mut self, event_id: &String, options: TaskOptions) -> (r: Result<(), SchedulerError>)
        requires
            old(self).wf(),
        ensures
            final(self).wf(),
            final(self).lead_time() == old(self).lead_time(),
            final(self).retry_limit() == old(self).retry_limit(),
            r == edit_outcome(old(self).tasks(), event_id@),
            r is Ok ==> ({
                let k = active_index(old(self).tasks(), event_id@);
                let t = old(self).tasks()[k];
                final(self).tasks() == old(self).tasks().update(
                    k,
                    ScheduledTask { task: ScalpingTask { options, ..t.task }, ..t },
                )
            }),
            r is Err ==> final(self).tasks() == old(self).tasks(),
    {
        match self.find_active(event_id) {
            Some(i) => {
                if self.tasks[i].state.is_claimable() {
                    let ghost before = self.tasks@;
                    let mut record = self.tasks.remove(i);
                    record.task.options = options;
                    self.tasks.insert(i, record);
                    proof {
                        let after = self.tasks@;
                        assert(after =~= before.update(i as int, after[i as int]));
                        assert forall|a: int, b: int|
                            #![trigger after[a], after[b]]
                            0 <= a < after.len() && 0 <= b < after.len() && a != b
                                && !after[a].state.spec_is_terminal()
                                && !after[b].state.spec_is_terminal() implies after[a].task.event_id@
                            != after[b].task.event_id@ by {
                            assert(before[a].task.event_id@ != before[b].task.event_id@);
                        }
                    }
                    Ok(())
                } else {
                    Err(SchedulerError::InvalidState)
                }
            },
            None => {
                if self.find_any(event_id) {
                    Err(SchedulerError::InvalidState)
                } else {
                    Err(SchedulerError::NotFound)
                }
            },
        }
    }

    /// Claims the first task that is `New` or `Retried` and due at `now`,
    /// moving it to `InProgress`; `None` where no task is due.
    pub fn claim_due(&mut self, now: i64) -> (r: Option<usize>)
        requires
            old(self).wf(),
        ensures
            final(self).wf(),
            final(self).lead_time() == old(self).lead_time(),
            final(self).retry_limit() == old(self).retry_limit(),
            r is None <==> forall|i: int| !due_at(old(self).tasks(), i, now),
            r is None ==> final(self).tasks() == old(self).tasks(),
            r matches Some(i) ==> {
                &&& due_at(old(self).tasks(), i as int, now)
                &&& forall|j: int| 0 <= j < i ==> !due_at(old(self).tasks(), j, now)
                &&& final(self).tasks() == old(self).tasks().update(
                    i as int,
                    ScheduledTask { state: TaskState::InProgress, ..old(self).tasks()[i as int] },
                )
            },
    {
        let mut i: usize = 0;
        while i < self.tasks.len()
            invariant
                i <= self.tasks@.len(),
                self.tasks@ == old(self).tasks@,
                self.lead_time_ms == old(self).lead_time_ms,
                self.max_retries == old(self).max_retries,
                unique_active(self.tasks@),
                forall|j: int| 0 <= j < i ==> !due_at(self.tasks@, j, now),
            decreases self.tasks@.len() - i,
        {
            if self.tasks[i].state.is_claimable() && self.tasks[i].fire_at <= now as i128 {
                let ghost before = self.tasks@;
                assert(due_at(before, i as int, now));
                let mut record = self.tasks.remove(i);
                record.state = TaskState::InProgress;
                self.tasks.insert(i, record);
                proof {
                    let after = self.tasks@;
                    assert(after =~= before.update(i as int, after[i as int]));
                    assert forall|a: int, b: int|
                        #![trigger after[a], after[b]]
                        0 <= a < after.len() && 0 <= b < after.len() && a != b
                            && !after[a].state.spec_is_terminal()
                            && !after[b].state.spec_is_terminal() implies after[a].task.event_id@
                        != after[b].task.event_id@ by {
                        assert(before[a].task.event_id@ != before[b].task.event_id@);
                    }
                }
                return Some(i);
            }
            i = i + 1;
        }
        None
    }

    /// Ends the running task at `index`: `Finished` on success; on failure
    /// `Retried` while retries remain, else `Failed`.
    pub fn finish(&mut self, index: usize, succeeded: bool) -> (r: Result<(), SchedulerError>)
        requires
            old(self).wf(),
        ensures
            final(self).wf(),
            final(self).lead_time() == old(self).lead_time(),
            final(self).retry_limit() == old(self).retry_limit(),
            index >= old(self).tasks().len() ==> r == Err::<(), SchedulerError>(
                SchedulerError::NotFound,
            ),
            index < old(self).tasks().len() && !(old(self).tasks()[index as int].state is InProgress)
                ==> r == Err::<(), SchedulerError>(SchedulerError::InvalidState),
            index < old(self).tasks().len() && old(self).tasks()[index as int].state is InProgress
                ==> r is Ok,
            r is Err ==> final(self).tasks() == old(self).tasks(),
            r is Ok ==> ({
                let t = old(self).tasks()[index as int];
                let next = end_state(succeeded, t.retries, old(self).retry_limit());
                final(self).tasks() == old(self).tasks().update(
                    index as int,
                    ScheduledTask {
                        state: next,
                        retries: if next is Retried {
                            (t.retries + 1) as u32
                        } else {
                            t.retries
                        },
                        ..t
                    },
                )
            }),
    {
        if index >= self.tasks.len() {
            return Err(SchedulerError::NotFound);
        }
        match self.tasks[index].state {
            TaskState::InProgress => {},
            _ => {
                return Err(SchedulerError::InvalidState);
            },
        }
        let ghost before = self.tasks@;
        let mut record = self.tasks.remove(index);
        if succeeded {
            record.state = TaskState::Finished;
        } else if record.retries < self.max_retries {
            record.state = TaskState::Retried;
            record.retries = record.retries + 1;
        } else {
            record.state = TaskState::Failed;
        }
        self.tasks.insert(index, record);
        proof {
            let after = self.tasks@;
            assert(after =~= before.update(index as int, after[index as int]));
            assert forall|a: int, b: int|
                #![trigger after[a], after[b]]
                0 <= a < after.len() && 0 <= b < after.len() && a != b
                    && !after[a].state.spec_is_terminal() && !after[b].state.spec_is_terminal()
                    implies after[a].task.event_id@ != after[b].task.event_id@ by {
                assert(before[a].task.event_id@ != before[b].task.event_id@);
            }
        }
        Ok(())
    }
}

} // verus!
