//! Memory records and an in-memory store that files them by id and answers
//! filtered, newest-first queries.
use vstd::prelude::*;

use crate::observability::now_unix;

verus! {

/// One remembered piece of content, filed under `id`.
#[derive(Debug, Clone, PartialEq, Eq)]
pub struct MemoryRecord {
    pub id: String,
    pub session_id: String,
    pub content: String,
    pub source: String,
    pub created_at_unix: u64,
}

/// Filters and a size bound for a memory query.
#[derive(Debug, Clone, PartialEq)]
pub struct MemoryQuery {
    pub session_id: Option<String>,
    pub source: Option<String>,
    pub limit: usize,
}

impl Default for MemoryQuery {
    fn default() -> (q: Self)
        ensures
            q.session_id is None,
            q.source is None,
            q.limit == 20,
    {
        MemoryQuery { session_id: None, source: None, limit: 20 }
    }
}

/// Whether a record passes the query's session and source filters (an
/// absent filter passes every record).
pub open spec fn record_matches(r: MemoryRecord, q: MemoryQuery) -> bool {
    &&& (q.session_id matches Some(s) ==> r.session_id@ == s@)
    &&& (q.source matches Some(s) ==> r.source@ == s@)
}

/// The ids of the stored records that pass the query's filters.
pub open spec fn matching_ids(m: Map<Seq<char>, MemoryRecord>, q: MemoryQuery) -> Set<Seq<char>> {
    m.dom().filter(|k: Seq<char>| record_matches(m[k], q))
}

/// What a query over the records `m` may answer with `r`: distinct stored
/// records that pass the filters, newest first, as many as the limit allows,
/// and none older than a passing record that was left out.
pub open spec fn query_answer(m: Map<Seq<char>, MemoryRecord>, q: MemoryQuery, r: Seq<MemoryRecord>) -> bool {
    &&& r.len() == if q.limit < matching_ids(m, q).len() {
        q.limit as int
    } else {
        matching_ids(m, q).len() as int
    }
    &&& forall|i: int| 0 <= i < r.len() ==> #[trigger] m.contains_key(r[i].id@) && m[r[i].id@] == r[i]
        && record_matches(r[i], q)
    &&& forall|i: int, j: int| 0 <= i < j < r.len() ==> (#[trigger] r[i]).id@ != (#[trigger] r[j]).id@
        && r[i].created_at_unix >= r[j].created_at_unix
    &&& forall|k: Seq<char>|
        #[trigger] matching_ids(m, q).contains(k) && r.len() > 0 && (forall|i: int|
            0 <= i < r.len() ==> r[i].id@ != k) ==> m[k].created_at_unix <= r.last().created_at_unix
}

/// A store of memory records.
pub trait MemoryStore: Send + Sync {
    /// Files `record` under its id, replacing any record with the same id.
    fn put(&mut self, record: MemoryRecord);

    /// The records that pass the query's filters, newest first, at most `limit` of them.
    fn query(&self, query: &MemoryQuery) -> Vec<MemoryRecord>;

    /// Removes the record filed under `id`; tells whether there was one.
    fn delete(&mut self, id: &str) -> bool;
}

/// The records of an [`InMemoryStore`] with the map of them by id.
struct StoreState {
    records: Vec<MemoryRecord>,
    by_id: Ghost<Map<Seq<char>, MemoryRecord>>,
}

impl StoreState {
    spec fn wf(&self) -> bool {
        &&& self.by_id@.dom().finite()
        &&& forall|i: int, j: int|
            0 <= i < j < self.records@.len() ==> (#[trigger] self.records@[i]).id@ != (
            #[trigger] self.records@[j]).id@
        &&& forall|i: int|
            0 <= i < self.records@.len() ==> #[trigger] self.by_id@.contains_key(
                self.records@[i].id@,
            ) && self.by_id@[self.records@[i].id@] == self.records@[i]
        &&& forall|k: Seq<char>| #[trigger]
            self.by_id@.contains_key(k) ==> exists|i: int|
                0 <= i < self.records@.len() && #[trigger] self.records@[i].id@ == k
    }

    fn empty() -> (s: Self)
        ensures
            s.wf(),
            s.by_id@ == Map::<Seq<char>, MemoryRecord>::empty(),
    {
        StoreState { records: Vec::new(), by_id: Ghost(Map::empty()) }
    }
}

/// A [`MemoryStore`] held in memory.
pub struct InMemoryStore {
    state: StoreState,
}

impl View for InMemoryStore {
    type V = Map<Seq<char>, MemoryRecord>;

    /// The stored records by id.
    closed spec fn view(&self) -> Map<Seq<char>, MemoryRecord> {
        self.state.by_id@
    }
}

impl InMemoryStore {
    #[verifier::type_invariant]
    spec fn inv(self) -> bool {
        self.state.wf()
    }

    /// An empty store.
    pub fn new() -> (s: Self)
        ensures
            s@ == Map::<Seq<char>, MemoryRecord>::empty(),
    {
        InMemoryStore { state: StoreState::empty() }
    }
}

impl Default for InMemoryStore {
    fn default() -> (s: Self)
        ensures
            s@ == Map::<Seq<char>, MemoryRecord>::empty(),
    {
        InMemoryStore::new()
    }
}

/// A copy of a record with every field equal.
fn copy_record(r: &MemoryRecord) -> (c: MemoryRecord)
    ensures
        c == *r,
{
    MemoryRecord {
        id: r.id.clone(),
        session_id: r.session_id.clone(),
        content: r.content.clone(),
        source: r.source.clone(),
        created_at_unix: r.created_at_unix,
    }
}

/// Whether `text` equals the optional filter (an absent filter passes).
fn filter_passes(filter: &Option<String>, text: &String) -> (r: bool)
    ensures
        r == (filter matches Some(f) ==> text@ == f@),
{
    match filter {
        Some(f) => *f == *text,
        None => true,
    }
}

fn record_passes(r: &MemoryRecord, q: &MemoryQuery) -> (b: bool)
    ensures
        b == record_matches(*r, *q),
{
    filter_passes(&q.session_id, &r.session_id) && filter_passes(&q.source, &r.source)
}

impl StoreState {
    /// The position of the record filed under `id`, if any.
    fn position_of(&self, id: &String) -> (p: Option<usize>)
        requires
            self.wf(),
        ensures
            p matches Some(i) ==> i < self.records@.len() && self.records@[i as int].id@ == id@,
            p is None ==> !self.by_id@.contains_key(id@),
    {
        let mut i: usize = 0;
        while i < self.records.len()
            invariant
                self.wf(),
                i <= self.records@.len(),
                forall|k: int| 0 <= k < i ==> self.records@[k].id@ != id@,
            decreases self.records@.len() - i,
        {
            if self.records[i].id == *id {
                return Some(i);
            }
            i = i + 1;
        }
        proof {
            if self.by_id@.contains_key(id@) {
                let k = choose|k: int| 0 <= k < self.records@.len() && self.records@[k].id@ == id@;
                assert(self.records@[k].id@ == id@);
            }
        }
        None
    }

    fn put(&mut self, record: MemoryRecord)
        requires
            old(self).wf(),
        ensures
            final(self).wf(),
            final(self).by_id@ == old(self).by_id@.insert(record.id@, record),
    {
        let ghost old_records = self.records@;
        let ghost new_map = self.by_id@.insert(record.id@, record);
        match self.position_of(&record.id) {
            Some(i) => {
                self.records.set(i, record);
                self.by_id = Ghost(new_map);
                assert forall|k: Seq<char>| #[trigger]
                    self.by_id@.contains_key(k) implies exists|j: int|
                        0 <= j < self.records@.len() && #[trigger] self.records@[j].id@ == k by {
                    if k == record.id@ {
                        assert(self.records@[i as int].id@ == k);
                    } else {
                        let j = choose|j: int|
                            0 <= j < old_records.len() && #[trigger] old_records[j].id@ == k;
                        assert(self.records@[j].id@ == k);
                    }
                }
            },
            None => {
                self.records.push(record);
                self.by_id = Ghost(new_map);
                assert forall|k: Seq<char>| #[trigger]
                    self.by_id@.contains_key(k) implies exists|j: int|
                        0 <= j < self.records@.len() && #[trigger] self.records@[j].id@ == k by {
                    if k == record.id@ {
                        assert(self.records@[old_records.len() as int].id@ == k);
                    } else {
                        let j = choose|j: int|
                            0 <= j < old_records.len() && #[trigger] old_records[j].id@ == k;
                        assert(self.records@[j].id@ == k);
                    }
                }
            },
        }
    }

    fn delete(&mut self, id: &str) -> (found: bool)
        requires
            old(self).wf(),
        ensures
            final(self).wf(),
            found == old(self).by_id@.contains_key(id@),
            final(self).by_id@ == old(self).by_id@.remove(id@),
    {
        let key = id.to_owned();
        let ghost old_records = self.records@;
        let ghost old_map = self.by_id@;
        assert(forall|x: int|
            0 <= x < old_records.len() ==> old_map.contains_key(#[trigger] old_records[x].id@)
                && old_map[old_records[x].id@] == old_records[x]);
        match self.position_of(&key) {
            Some(i) => {
                self.records.remove(i);
                self.by_id = Ghost(self.by_id@.remove(id@));
                assert forall|a: int, b: int|
                    0 <= a < b < self.records@.len() implies (#[trigger] self.records@[a]).id@
                    != (#[trigger] self.records@[b]).id@ by {
                    let oa = if a < i { a } else { a + 1 };
                    let ob = if b < i { b } else { b + 1 };
                    assert(self.records@[a] == old_records[oa]);
                    assert(self.records@[b] == old_records[ob]);
                }
                assert forall|a: int|
                    0 <= a < self.records@.len() implies #[trigger] self.by_id@.contains_key(
                        self.records@[a].id@,
                    ) && self.by_id@[self.records@[a].id@] == self.records@[a] by {
                    let oa = if a < i { a } else { a + 1 };
                    assert(self.records@[a] == old_records[oa]);
                    if oa < i {
                        assert(old_records[oa].id@ != old_records[i as int].id@);
                    } else {
                        assert(old_records[i as int].id@ != old_records[oa].id@);
                    }
                    assert(old_map.contains_key(old_records[oa].id@) && old_map[old_records[oa].id@]
                        == old_records[oa]);
                }
                assert forall|k: Seq<char>| #[trigger]
                    self.by_id@.contains_key(k) implies exists|j: int|
                        0 <= j < self.records@.len() && #[trigger] self.records@[j].id@ == k by {
                    let j = choose|j: int|
                        0 <= j < old_records.len() && #[trigger] old_records[j].id@ == k;
                    if j < i {
                        assert(self.records@[j].id@ == k);
                    } else {
                        assert(j != i);
                        assert(self.records@[j - 1].id@ == k);
                    }
                }
                true
            },
            None => {
                assert(self.by_id@.remove(id@) =~= self.by_id@);
                false
            },
        }
    }
}

impl MemoryStore for InMemoryStore {
    fn put(&mut self, record: MemoryRecord)
        ensures
            final(self)@ == old(self)@.insert(record.id@, record),
    {
        proof {
            use_type_invariant(&*self);
        }
        let mut st = StoreState::empty();
        std::mem::swap(&mut st, &mut self.state);
        st.put(record);
        self.state = st;
    }

    fn query(&self, query: &MemoryQuery) -> (r: Vec<MemoryRecord>)
        ensures
            query_answer(self@, *query, r@),
    {
        proof {
            use_type_invariant(self);
        }
        self.state.query(query)
    }

    fn delete(&mut self, id: &str) -> (found: bool)
        ensures
            found == old(self)@.contains_key(id@),
            final(self)@ == old(self)@.remove(id@),
    {
        proof {
            use_type_invariant(&*self);
        }
        let mut st = StoreState::empty();
        std::mem::swap(&mut st, &mut self.state);
        let found = st.delete(id);
        self.state = st;
        found
    }
}

impl StoreState {
    /// Positions of the passing records among the first `i`, newest first.
    spec fn ordered_matches(&self, q: MemoryQuery, order: Seq<usize>, i: int) -> bool {
        &&& order.no_duplicates()
        &&& forall|a: int|
            0 <= a < order.len() ==> #[trigger] order[a] < i && record_matches(
                self.records@[order[a] as int],
                q,
            )
        &&& forall|k: int|
            0 <= k < i && record_matches(#[trigger] self.records@[k], q) ==> exists|a: int|
                0 <= a < order.len() && order[a] == k
        &&& forall|a: int, b: int|
            0 <= a < b < order.len() ==> self.records@[(#[trigger] order[a]) as int].created_at_unix
                >= self.records@[(#[trigger] order[b]) as int].created_at_unix
    }

    /// The passing records' positions, newest first.
    fn matching_positions(&self, q: &MemoryQuery) -> (order: Vec<usize>)
        requires
            self.wf(),
        ensures
            self.ordered_matches(*q, order@, self.records@.len() as int),
    {
        let n = self.records.len();
        let mut order: Vec<usize> = Vec::new();
        let mut i: usize = 0;
        while i < n
            invariant
                n == self.records@.len(),
                i <= n,
                self.ordered_matches(*q, order@, i as int),
            decreases n - i,
        {
            if record_passes(&self.records[i], q) {
                let c = self.records[i].created_at_unix;
                let mut p: usize = 0;
                while p < order.len() && self.records[order[p]].created_at_unix >= c
                    invariant
                        n == self.records@.len(),
                        i < n,
                        self.ordered_matches(*q, order@, i as int),
                        p <= order@.len(),
                        c == self.records@[i as int].created_at_unix,
                        forall|a: int|
                            0 <= a < p ==> self.records@[order@[a] as int].created_at_unix >= c,
                    decreases order@.len() - p,
                {
                    p = p + 1;
                }
                let ghost old_order = order@;
                proof {
                    old_order.insert_ensures(p as int, i);
                    assert forall|a: int| p <= a < old_order.len() implies self.records@[old_order[a] as int].created_at_unix
                        < c by {
                        if p < old_order.len() {
                            assert(self.records@[old_order[p as int] as int].created_at_unix < c);
                            if a > p {
                                assert(self.records@[old_order[p as int] as int].created_at_unix
                                    >= self.records@[old_order[a] as int].created_at_unix);
                            }
                        }
                    }
                }
                order.insert(p, i);
                proof {
                    let o = order@;
                    assert forall|a: int, b: int| 0 <= a < o.len() && 0 <= b < o.len() && a != b implies o[a] != o[b] by {
                        let oa = if a < p { a } else if a == p { -1 } else { a - 1 };
                        let ob = if b < p { b } else if b == p { -1 } else { b - 1 };
                        if oa >= 0 && ob >= 0 {
                            assert(o[a] == old_order[oa]);
                            assert(o[b] == old_order[ob]);
                        } else if oa >= 0 {
                            assert(o[a] == old_order[oa]);
                        } else if ob >= 0 {
                            assert(o[b] == old_order[ob]);
                        }
                    }
                    assert forall|a: int| 0 <= a < o.len() implies #[trigger] o[a] < i + 1 && record_matches(
                        self.records@[o[a] as int],
                        *q,
                    ) by {
                        if a < p {
                            assert(o[a] == old_order[a]);
                        } else if a > p {
                            assert(o[a] == old_order[a - 1]);
                        }
                    }
                    assert forall|k: int|
                        0 <= k < i + 1 && record_matches(#[trigger] self.records@[k], *q) implies exists|a: int|
                            0 <= a < o.len() && o[a] == k by {
                        if k == i {
                            assert(o[p as int] == k);
                        } else {
                            let a = choose|a: int| 0 <= a < old_order.len() && old_order[a] == k;
                            if a < p {
                                assert(o[a] == k);
                            } else {
                                assert(o[a + 1] == k);
                            }
                        }
                    }
                    assert forall|a: int, b: int|
                        0 <= a < b < o.len() implies self.records@[(#[trigger] o[a]) as int].created_at_unix
                        >= self.records@[(#[trigger] o[b]) as int].created_at_unix by {
                        if b < p {
                            assert(o[a] == old_order[a] && o[b] == old_order[b]);
                        } else if b == p {
                            assert(o[a] == old_order[a]);
                        } else if a < p {
                            assert(o[a] == old_order[a] && o[b] == old_order[b - 1]);
                        } else if a == p {
                            assert(o[b] == old_order[b - 1]);
                        } else {
                            assert(o[a] == old_order[a - 1] && o[b] == old_order[b - 1]);
                        }
                    }
                }
            } else {
                proof {
                    assert forall|k: int|
                        0 <= k < i + 1 && record_matches(#[trigger] self.records@[k], *q) implies exists|a: int|
                            0 <= a < order@.len() && order@[a] == k by {
                        assert(k != i);
                    }
                }
            }
            i = i + 1;
        }
        order
    }

    /// The ids of the records at the given positions form the passing ids.
    proof fn lemma_matching_ids(&self, q: MemoryQuery, order: Seq<usize>)
        requires
            self.wf(),
            self.ordered_matches(q, order, self.records@.len() as int),
        ensures
            matching_ids(self.by_id@, q).len() == order.len(),
    {
        let recs = self.records@;
        let ids = order.map_values(|k: usize| recs[k as int].id@);
        assert forall|a: int, b: int| 0 <= a < ids.len() && 0 <= b < ids.len() && a != b implies ids[a] != ids[b] by {
            assert(order[a] != order[b]);
            if order[a] < order[b] {
                assert(recs[order[a] as int].id@ != recs[order[b] as int].id@);
            } else {
                assert(recs[order[b] as int].id@ != recs[order[a] as int].id@);
            }
        }
        ids.unique_seq_to_set();
        let m = self.by_id@;
        assert forall|k: Seq<char>| #[trigger] matching_ids(m, q).contains(k) implies ids.to_set().contains(k) by {
            assert(m.contains_key(k));
            let t = choose|t: int| 0 <= t < recs.len() && #[trigger] recs[t].id@ == k;
            assert(m[recs[t].id@] == recs[t]);
            assert(record_matches(recs[t], q));
            let a = choose|a: int| 0 <= a < order.len() && order[a] == t;
            assert(ids[a] == k);
            assert(ids.contains(k));
        }
        assert forall|k: Seq<char>| #[trigger] ids.to_set().contains(k) implies matching_ids(m, q).contains(k) by {
            assert(ids.contains(k));
            let a = choose|a: int| 0 <= a < ids.len() && ids[a] == k;
            let t = order[a] as int;
            assert(recs[t].id@ == k);
            assert(m.contains_key(recs[t].id@) && m[recs[t].id@] == recs[t]);
            assert(record_matches(recs[t], q));
        }
        assert(matching_ids(self.by_id@, q) =~= ids.to_set());
    }

    fn query(&self, q: &MemoryQuery) -> (r: Vec<MemoryRecord>)
        requires
            self.wf(),
        ensures
            query_answer(self.by_id@, *q, r@),
    {
        let order = self.matching_positions(q);
        proof {
            self.lemma_matching_ids(*q, order@);
        }
        let take = if q.limit < order.len() {
            q.limit
        } else {
            order.len()
        };
        let mut r: Vec<MemoryRecord> = Vec::new();
        let mut j: usize = 0;
        while j < take
            invariant
                self.wf(),
                self.ordered_matches(*q, order@, self.records@.len() as int),
                take <= order@.len(),
                j <= take,
                r@.len() == j,
                forall|a: int| 0 <= a < j ==> #[trigger] r@[a] == self.records@[order@[a] as int],
            decreases take - j,
        {
            r.push(copy_record(&self.records[order[j]]));
            j = j + 1;
        }
        proof {
            let recs = self.records@;
            let m = self.by_id@;
            let o = order@;
            assert forall|i: int| 0 <= i < r@.len() implies #[trigger] m.contains_key(r@[i].id@) && m[r@[i].id@] == r@[i]
                && record_matches(r@[i], *q) by {
                let t = o[i] as int;
                assert(r@[i] == recs[t]);
                assert(m.contains_key(recs[t].id@) && m[recs[t].id@] == recs[t]);
                assert(t < recs.len() && record_matches(recs[t], *q));
            }
            assert forall|a: int, b: int| 0 <= a < b < r@.len() implies (#[trigger] r@[a]).id@ != (
            #[trigger] r@[b]).id@ && r@[a].created_at_unix >= r@[b].created_at_unix by {
                assert(o[a] != o[b]);
                if o[a] < o[b] {
                    assert(recs[o[a] as int].id@ != recs[o[b] as int].id@);
                } else {
                    assert(recs[o[b] as int].id@ != recs[o[a] as int].id@);
                }
            }
            assert forall|k: Seq<char>|
                #[trigger] matching_ids(m, *q).contains(k) && r@.len() > 0 && (forall|i: int|
                    0 <= i < r@.len() ==> r@[i].id@ != k) implies m[k].created_at_unix
                <= r@.last().created_at_unix by {
                let t = choose|t: int| 0 <= t < recs.len() && #[trigger] recs[t].id@ == k;
                assert(record_matches(recs[t], *q));
                let a = choose|a: int| 0 <= a < o.len() && o[a] == t;
                if a < take {
                    assert(r@[a].id@ == k);
                }
                let last = r@.len() - 1;
                assert(r@[last] == recs[o[last] as int]);
                if a != last {
                    assert(recs[o[last] as int].created_at_unix >= recs[o[a] as int].created_at_unix);
                }
            }
        }
        r
    }
}

/// A record with the given fields, created at time `now`.
pub fn new_record_at(id: &str, session_id: &str, content: &str, source: &str, now: u64) -> (r: MemoryRecord)
    ensures
        r.id@ == id@,
        r.session_id@ == session_id@,
        r.content@ == content@,
        r.source@ == source@,
        r.created_at_unix == now,
{
    MemoryRecord {
        id: id.to_owned(),
        session_id: session_id.to_owned(),
        content: content.to_owned(),
        source: source.to_owned(),
        created_at_unix: now,
    }
}

/// A record stamped with the current time, as `new_record_at` makes it
/// with the clock's reading.
pub fn new_record(id: &str, session_id: &str, content: &str, source: &str) -> (r: MemoryRecord)
    ensures
        r.id@ == id@,
        r.session_id@ == session_id@,
        r.content@ == content@,
        r.source@ == source@,
{
    let now = now_unix();
    new_record_at(id, session_id, content, source, now)
}

/// A deleted record is never returned: any answer to a query over the
/// records after `id` was deleted holds no record with that id.
pub proof fn law_deleted_record_not_returned(
    m: Map<Seq<char>, MemoryRecord>,
    id: Seq<char>,
    q: MemoryQuery,
    r: Seq<MemoryRecord>,
)
    requires
        query_answer(m.remove(id), q, r),
    ensures
        forall|i: int| 0 <= i < r.len() ==> (#[trigger] r[i]).id@ != id,
{
    assert forall|i: int| 0 <= i < r.len() implies (#[trigger] r[i]).id@ != id by {
        assert(m.remove(id).contains_key(r[i].id@));
    }
}

/// A stored record is found: after `rec` is put, a query whose filters it
/// passes and whose limit covers every passing record returns it.
pub proof fn law_put_record_is_found(
    m: Map<Seq<char>, MemoryRecord>,
    rec: MemoryRecord,
    q: MemoryQuery,
    r: Seq<MemoryRecord>,
)
    requires
        m.dom().finite(),
        record_matches(rec, q),
        q.limit >= matching_ids(m.insert(rec.id@, rec), q).len(),
        query_answer(m.insert(rec.id@, rec), q, r),
    ensures
        exists|i: int| 0 <= i < r.len() && r[i] == rec,
{
    let m2 = m.insert(rec.id@, rec);
    let ids = matching_ids(m2, q);
    assert(ids.contains(rec.id@));
    let rids = r.map_values(|x: MemoryRecord| x.id@);
    assert forall|a: int, b: int| 0 <= a < rids.len() && 0 <= b < rids.len() && a != b implies rids[a] != rids[b] by {
        if a < b {
            assert(r[a].id@ != r[b].id@);
        } else {
            assert(r[b].id@ != r[a].id@);
        }
    }
    rids.unique_seq_to_set();
    assert forall|k: Seq<char>| #[trigger] rids.to_set().contains(k) implies ids.contains(k) by {
        assert(rids.contains(k));
        let a = choose|a: int| 0 <= a < rids.len() && rids[a] == k;
        assert(m2.contains_key(r[a].id@) && m2[r[a].id@] == r[a] && record_matches(r[a], q));
    }
    vstd::set_lib::lemma_len_subset(rids.to_set(), ids);
    if !rids.to_set().contains(rec.id@) {
        assert(rids.to_set().subset_of(ids.remove(rec.id@)));
        vstd::set_lib::lemma_len_subset(rids.to_set(), ids.remove(rec.id@));
        assert(false);
    }
    assert(rids.contains(rec.id@));
    let a = choose|a: int| 0 <= a < rids.len() && rids[a] == rec.id@;
    assert(m2[r[a].id@] == r[a]);
    assert(r[a] == rec);
}

/// Each filter of a query works on its own: every record a query answers
/// with has the query's session when a session is given and the query's
/// source when a source is given, whatever the other filter is; and a stored
/// record counts as a match exactly when it passes both given filters.
pub proof fn law_query_filters_apply_independently(
    m: Map<Seq<char>, MemoryRecord>,
    q: MemoryQuery,
    r: Seq<MemoryRecord>,
)
    requires
        query_answer(m, q, r),
    ensures
        forall|i: int| 0 <= i < r.len() ==> (q.session_id matches Some(s) ==> (#[trigger] r[i]).session_id@ == s@),
        forall|i: int| 0 <= i < r.len() ==> (q.source matches Some(s) ==> (#[trigger] r[i]).source@ == s@),
        forall|k: Seq<char>| #[trigger] matching_ids(m, q).contains(k) <==> m.contains_key(k)
            && (q.session_id matches Some(s) ==> m[k].session_id@ == s@)
            && (q.source matches Some(s) ==> m[k].source@ == s@),
{
    assert forall|i: int| 0 <= i < r.len() implies (q.session_id matches Some(s) ==> (#[trigger] r[i]).session_id@ == s@)
        && (q.source matches Some(s) ==> r[i].source@ == s@) by {
        assert(m.contains_key(r[i].id@));
        assert(record_matches(r[i], q));
    }
}

} // verus!
