use std::collections::VecDeque;
use vstd::prelude::*;

verus! {

/// A unit of work waiting in, or taken from, a [`TaskQueue`].
#[derive(Debug, Clone)]
pub struct TaskItem {
    pub id: String,
    pub task_type: String,
    pub payload: String,
    pub attempts: u32,
    pub max_attempts: u32,
}

/// Where a task goes after one more failed attempt.
#[derive(Debug, Clone, Copy, PartialEq, Eq)]
pub enum FailureRoute {
    /// Another attempt is allowed; the task goes back to the queue with this attempt count.
    Retry { attempts: u32 },
    /// The attempt budget is spent; the task goes to the dead-letter queue with this count.
    DeadLetter { attempts: u32 },
}

/// The failed-attempt rule: with one more attempt counted, a task whose count
/// reaches its maximum is dead-lettered, any other task is retried.
pub open spec fn failure_route_spec(attempts: u32, max_attempts: u32) -> FailureRoute {
    let next = (attempts + 1) as u32;
    if next >= max_attempts {
        FailureRoute::DeadLetter { attempts: next }
    } else {
        FailureRoute::Retry { attempts: next }
    }
}

/// Decides where a task goes after a failed attempt.
pub fn failure_route(attempts: u32, max_attempts: u32) -> (route: FailureRoute)
    requires
        attempts < u32::MAX,
    ensures
        route == failure_route_spec(attempts, max_attempts),
{
    let next = attempts + 1;
    if next >= max_attempts {
        FailureRoute::DeadLetter { attempts: next }
    } else {
        FailureRoute::Retry { attempts: next }
    }
}

/// The task with its attempt count replaced.
pub open spec fn with_attempts(task: TaskItem, attempts: u32) -> TaskItem {
    TaskItem { attempts, ..task }
}

/// An in-memory FIFO of pending tasks with a dead-letter list for tasks
/// whose attempt budget is spent.
#[derive(Debug)]
pub struct TaskQueue {
    pending: VecDeque<TaskItem>,
    dead_letter: Vec<TaskItem>,
}

impl Default for TaskQueue {
    fn default() -> (queue: Self)
        ensures
            queue.pending_seq() == Seq::<TaskItem>::empty(),
            queue.dead_letter_seq() == Seq::<TaskItem>::empty(),
    {
        TaskQueue { pending: VecDeque::new(), dead_letter: Vec::new() }
    }
}

impl TaskQueue {
    /// The pending tasks, front first.
    pub closed spec fn pending_seq(&self) -> Seq<TaskItem> {
        self.pending@
    }

    /// The dead-lettered tasks, oldest first.
    pub closed spec fn dead_letter_seq(&self) -> Seq<TaskItem> {
        self.dead_letter@
    }

    /// Appends a task at the back of the pending queue.
    pub fn enqueue(&mut self, task: TaskItem)
        ensures
            final(self).pending_seq() == old(self).pending_seq().push(task),
            final(self).dead_letter_seq() == old(self).dead_letter_seq(),
            old(self).dead_letter_seq().is_prefix_of(final(self).dead_letter_seq()),
    {
        self.pending.push_back(task);
    }

    /// Takes the task at the front of the pending queue, if there is one.
    pub fn dequeue(&mut self) -> (task: Option<TaskItem>)
        ensures
            final(self).dead_letter_seq() == old(self).dead_letter_seq(),
            old(self).dead_letter_seq().is_prefix_of(final(self).dead_letter_seq()),
            old(self).pending_seq().len() == 0 ==> task is None && final(self).pending_seq()
                == old(self).pending_seq(),
            old(self).pending_seq().len() > 0 ==> task == Some(old(self).pending_seq()[0])
                && final(self).pending_seq() == old(self).pending_seq().drop_first(),
            final(self).pending_seq().len() + final(self).dead_letter_seq().len() + (if task is Some {
                1int
            } else {
                0int
            }) == old(self).pending_seq().len() + old(self).dead_letter_seq().len(),
    {
        self.pending.pop_front()
    }

    /// Counts one more failed attempt of `task`: it is dead-lettered once the
    /// count reaches its maximum, and otherwise queued again at the back.
    pub fn mark_failed(&mut self, task: TaskItem)
        requires
            task.attempts < u32::MAX,
        ensures
            ({
                let failed = with_attempts(task, (task.attempts + 1) as u32);
                if failed.attempts >= task.max_attempts {
                    &&& final(self).dead_letter_seq() == old(self).dead_letter_seq().push(failed)
                    &&& final(self).pending_seq() == old(self).pending_seq()
                } else {
                    &&& final(self).pending_seq() == old(self).pending_seq().push(failed)
                    &&& final(self).dead_letter_seq() == old(self).dead_letter_seq()
                }
            }),
            final(self).pending_seq().len() + final(self).dead_letter_seq().len() == old(
                self,
            ).pending_seq().len() + old(self).dead_letter_seq().len() + 1,
            old(self).dead_letter_seq().is_prefix_of(final(self).dead_letter_seq()),
    {
        let mut task = task;
        match failure_route(task.attempts, task.max_attempts) {
            FailureRoute::DeadLetter { attempts } => {
                task.attempts = attempts;
                self.dead_letter.push(task);
            },
            FailureRoute::Retry { attempts } => {
                task.attempts = attempts;
                self.pending.push_back(task);
            },
        }
    }

    /// Number of tasks waiting in the pending queue.
    pub fn pending_count(&self) -> (n: usize)
        ensures
            n == self.pending_seq().len(),
    {
        self.pending.len()
    }

    /// Number of dead-lettered tasks.
    pub fn dead_letter_count(&self) -> (n: usize)
        ensures
            n == self.dead_letter_seq().len(),
    {
        self.dead_letter.len()
    }
}

/// When a scheduled job fires.
#[derive(Debug, Clone)]
pub enum SchedulerTrigger {
    EverySeconds(u64),
    Cron(String),
}

/// Attempts a task has left before it is dead-lettered: what remains below
/// its maximum, and at least one.
pub open spec fn failures_to_dead_letter(attempts: u32, max_attempts: u32) -> int {
    if max_attempts > attempts {
        max_attempts - attempts
    } else {
        1
    }
}

/// Max-attempt enforcement: a task that keeps failing is retried after each
/// of its first `failures_to_dead_letter - 1` failures and dead-lettered at
/// the next one, never earlier and never later.
pub proof fn law_dead_letter_after_last_attempt(attempts: u32, max_attempts: u32, j: int)
    requires
        1 <= j <= failures_to_dead_letter(attempts, max_attempts),
        attempts + failures_to_dead_letter(attempts, max_attempts) <= u32::MAX,
    ensures
        j < failures_to_dead_letter(attempts, max_attempts) ==> failure_route_spec(
            (attempts + j - 1) as u32,
            max_attempts,
        ) == (FailureRoute::Retry { attempts: (attempts + j) as u32 }),
        j == failures_to_dead_letter(attempts, max_attempts) ==> failure_route_spec(
            (attempts + j - 1) as u32,
            max_attempts,
        ) == (FailureRoute::DeadLetter { attempts: (attempts + j) as u32 }),
{
}

/// Dead letters are never lost: along any run of queue states in which each
/// call keeps the earlier dead letters as a prefix, as `enqueue`, `dequeue`
/// and `mark_failed` all ensure, every later state holds the dead letters of
/// every earlier one, so the dead-letter count never falls.
pub proof fn law_dead_letters_only_grow(states: Seq<Seq<TaskItem>>)
    requires
        forall|i: int| 0 <= i < states.len() - 1 ==> #[trigger] states[i].is_prefix_of(states[i + 1]),
    ensures
        forall|i: int, j: int|
            0 <= i <= j < states.len() ==> #[trigger] states[i].is_prefix_of(#[trigger] states[j])
                && states[i].len() <= states[j].len(),
    decreases states.len(),
{
    if states.len() > 0 {
        let init = states.drop_last();
        assert forall|i: int| 0 <= i < init.len() - 1 implies #[trigger] init[i].is_prefix_of(init[i + 1]) by {
            assert(init[i] == states[i] && init[i + 1] == states[i + 1]);
            assert(states[i].is_prefix_of(states[i + 1]));
        }
        law_dead_letters_only_grow(init);
        let last = states.len() - 1;
        assert forall|i: int, j: int|
            0 <= i <= j < states.len() implies #[trigger] states[i].is_prefix_of(#[trigger] states[j])
                && states[i].len() <= states[j].len() by {
            if j < last {
                assert(init[i] == states[i] && init[j] == states[j]);
                assert(init[i].is_prefix_of(init[j]));
            } else if i == j {
                assert(states[i] =~= states[j].subrange(0, states[i].len() as int));
            } else {
                assert(init[i] == states[i] && init[last - 1] == states[last - 1]);
                assert(init[i].is_prefix_of(init[last - 1]));
                let k = last - 1;
                assert(states[k].is_prefix_of(states[k + 1]));
                assert(k + 1 == last);
                assert(states[i] =~= states[j].subrange(0, states[i].len() as int)) by {
                    assert forall|k: int| 0 <= k < states[i].len() implies states[i][k] == states[j][k] by {
                        assert(states[i][k] == states[last - 1].subrange(0, states[i].len() as int)[k]);
                        assert(states[last - 1][k] == states[j].subrange(0, states[last - 1].len() as int)[k]);
                    }
                }
            }
        }
    }
}

} // verus!
