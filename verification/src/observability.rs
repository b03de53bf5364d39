//! Heartbeats and a bounded log of recent actions.
use std::collections::VecDeque;
use std::time::{SystemTime, UNIX_EPOCH};
use vstd::prelude::*;

verus! {

/// Reads the system clock (`SystemTime::now`) as whole seconds since the
/// Unix epoch, or 0 when the clock is set before the epoch. Nothing is
/// promised of the value: it depends on the time of the call.
#[verifier::external_body]
pub(crate) fn now_unix() -> u64 {
    match SystemTime::now().duration_since(UNIX_EPOCH) {
        Ok(d) => d.as_secs(),
        Err(_) => 0,
    }
}

} // verus!

verus! {

/// A liveness report of the service.
#[derive(Debug, Clone)]
pub struct Heartbeat {
    pub service: &'static str,
    pub status: &'static str,
    pub timestamp_unix: u64,
}

/// One logged action.
#[derive(Debug, Clone)]
pub struct ActionLog {
    pub action: String,
    pub detail: String,
    pub timestamp_unix: u64,
}

/// A copy of a log entry with every field equal.
fn copy_entry(e: &ActionLog) -> (c: ActionLog)
    ensures
        c == *e,
{
    ActionLog { action: e.action.clone(), detail: e.detail.clone(), timestamp_unix: e.timestamp_unix }
}

/// The most entries a buffer of the given capacity holds: the capacity, and
/// one for a buffer of capacity zero (which still keeps the latest entry).
pub open spec fn retained(capacity: usize) -> int {
    if capacity == 0 {
        1
    } else {
        capacity as int
    }
}

/// The entries after logging `entry`: when the buffer is full the oldest
/// entry makes room, then `entry` is appended.
pub open spec fn after_push(entries: Seq<ActionLog>, capacity: usize, entry: ActionLog) -> Seq<ActionLog> {
    if entries.len() >= capacity && entries.len() > 0 {
        entries.drop_first().push(entry)
    } else {
        entries.push(entry)
    }
}

/// The entries of a buffer of the given capacity, made empty, after logging
/// each of `logged` in turn.
pub open spec fn after_pushes(capacity: usize, logged: Seq<ActionLog>) -> Seq<ActionLog>
    decreases logged.len(),
{
    if logged.len() == 0 {
        Seq::empty()
    } else {
        after_push(after_pushes(capacity, logged.drop_last()), capacity, logged.last())
    }
}

/// How many of `n` logged entries a buffer of the given capacity keeps.
pub open spec fn kept_count(capacity: usize, n: int) -> int {
    if n < retained(capacity) {
        n
    } else {
        retained(capacity)
    }
}

/// A buffer keeps exactly the latest entries: after `n` entries are logged
/// into an empty buffer it holds the last `min(n, max(capacity, 1))` of them,
/// oldest first.
pub proof fn law_log_keeps_latest_entries(capacity: usize, logged: Seq<ActionLog>)
    ensures
        after_pushes(capacity, logged).len() == kept_count(capacity, logged.len() as int),
        after_pushes(capacity, logged) == logged.subrange(
            logged.len() - kept_count(capacity, logged.len() as int),
            logged.len() as int,
        ),
    decreases logged.len(),
{
    if logged.len() > 0 {
        let n = logged.len() as int;
        let init = logged.drop_last();
        law_log_keeps_latest_entries(capacity, init);
        let prev = after_pushes(capacity, init);
        let k = kept_count(capacity, n - 1);
        assert(prev == init.subrange(n - 1 - k, n - 1));
        if prev.len() >= capacity && prev.len() > 0 {
            assert(prev.drop_first().push(logged.last()) =~= logged.subrange(n - kept_count(capacity, n), n));
        } else {
            assert(prev.push(logged.last()) =~= logged.subrange(n - kept_count(capacity, n), n));
        }
    }
}

/// A log of the most recent actions, oldest first, bounded by a capacity.
#[derive(Debug)]
pub struct LogBuffer {
    entries: VecDeque<ActionLog>,
    capacity: usize,
}

impl LogBuffer {
    #[verifier::type_invariant]
    spec fn inv(self) -> bool {
        self.entries@.len() <= retained(self.capacity)
    }

    /// The logged entries, oldest first.
    pub closed spec fn entries_seq(&self) -> Seq<ActionLog> {
        self.entries@
    }

    /// The capacity the buffer was made with.
    pub closed spec fn capacity_spec(&self) -> usize {
        self.capacity
    }

    /// An empty buffer of the given capacity.
    pub fn new(capacity: usize) -> (b: Self)
        ensures
            b.entries_seq() == Seq::<ActionLog>::empty(),
            b.capacity_spec() == capacity,
    {
        LogBuffer { entries: VecDeque::new(), capacity }
    }

    /// Logs an action, stamped with the given time.
    pub fn push_at(&mut self, action: &str, detail: &str, timestamp_unix: u64)
        ensures
            final(self).capacity_spec() == old(self).capacity_spec(),
            final(self).entries_seq().len() >= 1,
            final(self).entries_seq() == after_push(
                old(self).entries_seq(),
                old(self).capacity_spec(),
                final(self).entries_seq().last(),
            ),
            final(self).entries_seq().last().action@ == action@,
            final(self).entries_seq().last().detail@ == detail@,
            final(self).entries_seq().last().timestamp_unix == timestamp_unix,
            final(self).entries_seq().len() <= retained(final(self).capacity_spec()),
    {
        proof {
            use_type_invariant(&*self);
        }
        let entry = ActionLog {
            action: action.to_owned(),
            detail: detail.to_owned(),
            timestamp_unix,
        };
        let mut entries: VecDeque<ActionLog> = VecDeque::new();
        std::mem::swap(&mut entries, &mut self.entries);
        if entries.len() >= self.capacity {
            let _ = entries.pop_front();
        }
        entries.push_back(entry);
        self.entries = entries;
    }

    /// Logs an action, stamped with the current time.
    pub fn push(&mut self, action: &str, detail: &str)
        ensures
            final(self).capacity_spec() == old(self).capacity_spec(),
            final(self).entries_seq().len() >= 1,
            final(self).entries_seq() == after_push(
                old(self).entries_seq(),
                old(self).capacity_spec(),
                final(self).entries_seq().last(),
            ),
            final(self).entries_seq().last().action@ == action@,
            final(self).entries_seq().last().detail@ == detail@,
            final(self).entries_seq().len() <= retained(final(self).capacity_spec()),
    {
        let now = now_unix();
        self.push_at(action, detail, now);
    }

    /// Copies of the logged entries, oldest first.
    pub fn list(&self) -> (v: Vec<ActionLog>)
        ensures
            v@ == self.entries_seq(),
    {
        let mut v: Vec<ActionLog> = Vec::new();
        let mut i: usize = 0;
        while i < self.entries.len()
            invariant
                i <= self.entries@.len(),
                v@ == self.entries@.take(i as int),
            decreases self.entries@.len() - i,
        {
            v.push(copy_entry(&self.entries[i]));
            assert(self.entries@.take(i as int).push(self.entries@[i as int]) =~= self.entries@.take(i + 1));
            i = i + 1;
        }
        assert(self.entries@.take(i as int) =~= self.entries@);
        v
    }
}

impl Default for LogBuffer {
    fn default() -> (b: Self)
        ensures
            b.entries_seq() == Seq::<ActionLog>::empty(),
            b.capacity_spec() == 0,
    {
        LogBuffer::new(0)
    }
}

/// A heartbeat of the service, stamped with the given time.
pub fn heartbeat_at(timestamp_unix: u64) -> (h: Heartbeat)
    ensures
        h.service@ == "ultra-core"@,
        h.status@ == "alive"@,
        h.timestamp_unix == timestamp_unix,
{
    Heartbeat { service: "ultra-core", status: "alive", timestamp_unix }
}

/// A heartbeat of the service, stamped with the current time.
pub fn heartbeat() -> (h: Heartbeat)
    ensures
        h.service@ == "ultra-core"@,
        h.status@ == "alive"@,
{
    heartbeat_at(now_unix())
}

} // verus!
