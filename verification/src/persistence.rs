//! Records kept by the persistent store, and the store's decisions that do
//! not depend on the database: how a scheduler trigger is written into its
//! two columns and read back, and the id of a task fired by a schedule.
use vstd::prelude::*;

use crate::autonomy::SchedulerTrigger;
use crate::text::{concat2, decimal, lemma_parse_decimal, parse_u64, parse_u64_spec, u64_to_decimal};

verus! {

/// An approval decision on a sensitive action.
#[derive(Debug, Clone)]
pub struct ApprovalEvent {
    pub id: String,
    pub action: String,
    pub decision: String,
    pub actor: String,
    pub reason: Option<String>,
    pub created_at_unix: u64,
}

/// A recurring job that enqueues a task when it fires.
#[derive(Debug, Clone)]
pub struct ScheduledJob {
    pub id: String,
    pub task_type: String,
    pub payload: String,
    pub trigger: SchedulerTrigger,
    pub max_attempts: u32,
    pub enabled: bool,
    pub next_run_unix: u64,
}

/// Sizes of the task queue and the dead-letter queue.
#[derive(Debug, Clone)]
pub struct QueueCounts {
    pub pending: usize,
    pub dead_letter: usize,
}

/// A task that used up its attempts.
#[derive(Debug, Clone)]
pub struct DeadLetterTask {
    pub task_id: String,
    pub task_type: String,
    pub payload: String,
    pub attempts: u32,
    pub max_attempts: u32,
    pub last_error: Option<String>,
    pub failed_at_unix: u64,
}

/// Why a store operation failed.
#[derive(Debug)]
pub enum PersistenceError {
    Sqlite(String),
    Serialization(String),
}

/// The text of an error as its `Display` renders it.
pub open spec fn persistence_error_text(e: PersistenceError) -> Seq<char> {
    match e {
        PersistenceError::Sqlite(m) => "sqlite error: "@ + m@,
        PersistenceError::Serialization(m) => "serialization error: "@ + m@,
    }
}

impl PersistenceError {
    /// The error's text.
    pub fn message(&self) -> (s: String)
        ensures
            s@ == persistence_error_text(*self),
    {
        match self {
            PersistenceError::Sqlite(m) => concat2("sqlite error: ", m.as_str()),
            PersistenceError::Serialization(m) => concat2("serialization error: ", m.as_str()),
        }
    }
}

/// A scheduler trigger as a mathematical value.
pub enum TriggerSpec {
    EverySeconds(u64),
    Cron(Seq<char>),
}

impl View for SchedulerTrigger {
    type V = TriggerSpec;

    open spec fn view(&self) -> TriggerSpec {
        match self {
            SchedulerTrigger::EverySeconds(v) => TriggerSpec::EverySeconds(*v),
            SchedulerTrigger::Cron(e) => TriggerSpec::Cron(e@),
        }
    }
}

/// The kind and expression columns a trigger is stored in.
pub open spec fn trigger_columns_spec(t: TriggerSpec) -> (Seq<char>, Seq<char>) {
    match t {
        TriggerSpec::EverySeconds(v) => ("every_seconds"@, decimal(v as nat)),
        TriggerSpec::Cron(e) => ("cron"@, e),
    }
}

/// The trigger read back from its columns: `every_seconds` with an
/// expression that does not parse as a `u64` reads as every 0 seconds, and
/// any other kind reads as a cron expression.
pub open spec fn trigger_from_columns_spec(kind: Seq<char>, expr: Seq<char>) -> TriggerSpec {
    if kind == "every_seconds"@ {
        TriggerSpec::EverySeconds(
            match parse_u64_spec(expr) {
                Some(v) => v,
                None => 0,
            },
        )
    } else {
        TriggerSpec::Cron(expr)
    }
}

/// The kind and expression columns a trigger is stored in.
pub fn trigger_columns(trigger: &SchedulerTrigger) -> (cols: (String, String))
    ensures
        (cols.0@, cols.1@) == trigger_columns_spec(trigger@),
{
    match trigger {
        SchedulerTrigger::EverySeconds(v) => ("every_seconds".to_owned(), u64_to_decimal(*v)),
        SchedulerTrigger::Cron(expr) => ("cron".to_owned(), expr.clone()),
    }
}

/// The trigger stored in the given kind and expression columns.
pub fn trigger_from_columns(kind: &str, expr: &str) -> (t: SchedulerTrigger)
    ensures
        t@ == trigger_from_columns_spec(kind@, expr@),
{
    if kind.to_owned() == "every_seconds".to_owned() {
        let v = match parse_u64(expr) {
            Some(v) => v,
            None => 0,
        };
        SchedulerTrigger::EverySeconds(v)
    } else {
        SchedulerTrigger::Cron(expr.to_owned())
    }
}

/// A trigger written into its columns reads back as the same trigger.
pub proof fn law_trigger_columns_round_trip(t: TriggerSpec)
    ensures
        trigger_from_columns_spec(trigger_columns_spec(t).0, trigger_columns_spec(t).1) == t,
{
    reveal_strlit("every_seconds");
    reveal_strlit("cron");
    match t {
        TriggerSpec::EverySeconds(v) => {
            lemma_parse_decimal(v);
        },
        TriggerSpec::Cron(e) => {
            assert("cron"@[0] != "every_seconds"@[0]);
        },
    }
}

/// The id of the task that the job `job_id` fires at time `now`.
pub open spec fn scheduled_task_id_spec(job_id: Seq<char>, now: u64) -> Seq<char> {
    "sched-"@ + job_id + "-"@ + decimal(now as nat)
}

/// The id of the task that the job `job_id` fires at time `now`.
pub fn scheduled_task_id(job_id: &str, now: u64) -> (id: String)
    ensures
        id@ == scheduled_task_id_spec(job_id@, now),
{
    let mut id = concat2("sched-", job_id);
    id.append("-");
    let digits = u64_to_decimal(now);
    id.append(digits.as_str());
    id
}

/// The creation time below which memories are expired: `ttl_seconds` before
/// `now_unix`, or 0 when that is before the epoch.
pub fn expiry_threshold(ttl_seconds: u64, now_unix: u64) -> (t: u64)
    ensures
        t == if now_unix >= ttl_seconds {
            (now_unix - ttl_seconds) as u64
        } else {
            0u64
        },
{
    now_unix.saturating_sub(ttl_seconds)
}

} // verus!
