//! An in-memory persisted-session store with the exact CRUD contract the
//! registry consumes: create, read by identifier, refresh a timestamp,
//! delete everything stale.
//!
//! A deployment backs this interface with a relational engine; only the
//! contract below matters to the registry, and this store realises it for
//! tests and self-contained runs.

use vstd::prelude::*;
use crate::session::Session;
use crate::idmap::{has_id, entry_index, entries_map, unique_ids, lemma_at_index, lemma_update_entry, lemma_push_entry};

verus! {

/// The two timestamps a session row carries beside its identifier.
#[derive(Clone, Copy, Debug, PartialEq, Eq, Structural)]
pub struct SessionTimes {
    pub created_ts: i64,
    pub updated_ts: i64,
}

/// Why a store call failed.
#[derive(Clone, Copy, Debug, PartialEq, Eq, Structural)]
pub enum StoreError {
    /// A row with the same identifier already exists.
    DuplicateId,
}

/// Is `e` one of the first `bound` rows, with a fresh-enough timestamp?
spec fn is_kept_row(
    s1: Seq<(String, SessionTimes)>,
    bound: int,
    before: i64,
    e: (String, SessionTimes),
) -> bool {
    exists|j: int| 0 <= j < bound && #[trigger] s1[j] == e && s1[j].1.updated_ts >= before
}

/// The store: one row per session identifier.
pub struct InMemorySessionStore {
    rows: Vec<(String, SessionTimes)>,
}

impl InMemorySessionStore {
    /// The rows as a map from identifier to its timestamps.
    pub closed spec fn table(&self) -> Map<Seq<char>, SessionTimes> {
        entries_map(self.rows@)
    }

    /// Number of rows.
    pub closed spec fn count(&self) -> nat {
        self.rows@.len()
    }

    /// Internal well-formedness: identifiers are unique.
    pub closed spec fn wf(&self) -> bool {
        unique_ids(self.rows@)
    }

    /// An empty store.
    pub fn new() -> (r: InMemorySessionStore)
        ensures
            r.wf(),
            r.table() == Map::<Seq<char>, SessionTimes>::empty(),
            r.count() == 0,
    {
        let r = InMemorySessionStore { rows: Vec::new() };
        proof {
            assert(r.table() =~= Map::<Seq<char>, SessionTimes>::empty());
        }
        r
    }

    fn find_index(&self, id: &String) -> (r: Option<usize>)
        requires
            self.wf(),
        ensures
            match r {
                Some(i) => i < self.rows@.len() && self.rows@[i as int].0@ == id@,
                None => !has_id(self.rows@, id@),
            },
    {
        let n = self.rows.len();
        let mut i: usize = 0;
        while i < n
            invariant
                n == self.rows@.len(),
                i <= n,
                forall|j: int| 0 <= j < i ==> (#[trigger] self.rows@[j]).0@ != id@,
            decreases n - i,
        {
            if self.rows[i].0 == *id {
                return Some(i);
            }
            i = i + 1;
        }
        None
    }

    /// Creates the row: an error, and no change, when the identifier is
    /// already present — identifiers are unique in the store.
    pub fn create(&mut self, row: &Session) -> (r: Result<(), StoreError>)
        requires
            old(self).wf(),
        ensures
            final(self).wf(),
            match r {
                Ok(()) => !old(self).table().contains_key(row.hash_id@) && final(self).table()
                    == old(self).table().insert(
                    row.hash_id@,
                    SessionTimes { created_ts: row.created_ts, updated_ts: row.updated_ts },
                ),
                Err(e) => e == StoreError::DuplicateId && old(self).table().contains_key(
                    row.hash_id@,
                ) && *final(self) == *old(self),
            },
    {
        let ghost s1 = self.rows@;
        match self.find_index(&row.hash_id) {
            Some(i) => {
                proof {
                    lemma_at_index(s1, i as int);
                }
                Err(StoreError::DuplicateId)
            },
            None => {
                let times = SessionTimes { created_ts: row.created_ts, updated_ts: row.updated_ts };
                proof {
                    lemma_push_entry(s1, row.hash_id, times);
                }
                self.rows.push((row.hash_id.clone(), times));
                proof {
                    assert(self.rows@ =~= s1.push((row.hash_id, times)));
                }
                Ok(())
            },
        }
    }

    /// The row under `id`, or nothing when no row has that identifier.
    pub fn read_by_id(&self, id: &String) -> (r: Option<Session>)
        requires
            self.wf(),
        ensures
            match r {
                Some(row) => self.table().contains_key(id@) && row.hash_id@ == id@
                    && row.created_ts == self.table()[id@].created_ts && row.updated_ts
                    == self.table()[id@].updated_ts,
                None => !self.table().contains_key(id@),
            },
    {
        match self.find_index(id) {
            Some(i) => {
                proof {
                    lemma_at_index(self.rows@, i as int);
                }
                let e = &self.rows[i];
                Some(Session { hash_id: e.0.clone(), created_ts: e.1.created_ts, updated_ts: e.1.updated_ts })
            },
            None => None,
        }
    }

    /// Sets the update timestamp of `id`'s row to `now`; a missing row is
    /// no error, nothing is touched and `false` comes back.
    pub fn update_timestamp(&mut self, id: &String, now: i64) -> (r: bool)
        requires
            old(self).wf(),
        ensures
            final(self).wf(),
            r == old(self).table().contains_key(id@),
            old(self).table().contains_key(id@) ==> final(self).table() == old(
                self,
            ).table().insert(
                id@,
                SessionTimes {
                    created_ts: old(self).table()[id@].created_ts,
                    updated_ts: now,
                },
            ),
            !old(self).table().contains_key(id@) ==> *final(self) == *old(self),
    {
        let ghost s1 = self.rows@;
        match self.find_index(id) {
            Some(i) => {
                proof {
                    lemma_at_index(s1, i as int);
                }
                let key = self.rows[i].0.clone();
                let times = SessionTimes { created_ts: self.rows[i].1.created_ts, updated_ts: now };
                proof {
                    lemma_update_entry(s1, i as int, key, times);
                }
                self.rows[i] = (key, times);
                proof {
                    assert(self.table() == old(self).table().insert(id@, times));
                }
                true
            },
            None => false,
        }
    }

    /// The one stale-delete call of a sweep: removes every row whose update
    /// timestamp lies before `updated_before`, and nothing else.
    pub fn delete_where(&mut self, updated_before: i64)
        requires
            old(self).wf(),
        ensures
            final(self).wf(),
            forall|k: Seq<char>|
                final(self).table().contains_key(k) <==> (old(self).table().contains_key(k) && old(
                    self,
                ).table()[k].updated_ts >= updated_before),
            forall|k: Seq<char>|
                #[trigger] final(self).table().contains_key(k) ==> final(self).table()[k] == old(
                    self,
                ).table()[k],
    {
        let ghost s1 = self.rows@;
        let n = self.rows.len();
        let mut out: Vec<(String, SessionTimes)> = Vec::new();
        let mut i: usize = 0;
        while i < n
            invariant
                unique_ids(s1),
                s1 == self.rows@,
                n == s1.len(),
                i <= n,
                unique_ids(out@),
                forall|m: int|
                    0 <= m < out@.len() ==> is_kept_row(
                        s1,
                        i as int,
                        updated_before,
                        #[trigger] out@[m],
                    ),
                forall|j: int|
                    0 <= j < i && (#[trigger] s1[j]).1.updated_ts >= updated_before ==> has_id(
                        out@,
                        s1[j].0@,
                    ),
            decreases n - i,
        {
            let keep = self.rows[i].1.updated_ts >= updated_before;
            let ghost out_before = out@;
            if keep {
                let e = &self.rows[i];
                out.push((e.0.clone(), e.1));
            }
            i = i + 1;
            proof {
                let io = i - 1;
                if keep {
                    assert(out@ == out_before.push(s1[io]));
                    assert(out@[out@.len() - 1] == s1[io]);
                }
                assert forall|m: int| 0 <= m < out@.len() implies is_kept_row(
                    s1,
                    i as int,
                    updated_before,
                    #[trigger] out@[m],
                ) by {
                    if keep && m == out@.len() - 1 {
                        assert(s1[io] == out@[m] && s1[io].1.updated_ts >= updated_before);
                    } else {
                        assert(out@[m] == out_before[m]);
                        assert(is_kept_row(s1, io, updated_before, out_before[m]));
                        let j = choose|j: int|
                            0 <= j < io && #[trigger] s1[j] == out_before[m] && s1[j].1.updated_ts
                                >= updated_before;
                        assert(s1[j] == out@[m]);
                    }
                }
                assert forall|a: int, b: int| 0 <= a < b < out@.len() implies (
                #[trigger] out@[a]).0@ != (#[trigger] out@[b]).0@ by {
                    if keep && b == out@.len() - 1 {
                        assert(is_kept_row(s1, io, updated_before, out_before[a]));
                        let j = choose|j: int|
                            0 <= j < io && #[trigger] s1[j] == out_before[a] && s1[j].1.updated_ts
                                >= updated_before;
                        assert(out@[a] == s1[j]);
                        assert(out@[b] == s1[io]);
                        assert(s1[j].0@ != s1[io].0@);
                    } else {
                        assert(out@[a] == out_before[a] && out@[b] == out_before[b]);
                    }
                }
                assert forall|j: int|
                    0 <= j < i && (#[trigger] s1[j]).1.updated_ts >= updated_before implies has_id(
                        out@,
                        s1[j].0@,
                    ) by {
                    if j == io {
                        if keep {
                            assert(out@[out@.len() - 1].0@ == s1[io].0@);
                        }
                    } else {
                        assert(has_id(out_before, s1[j].0@));
                        let m = choose|m: int|
                            0 <= m < out_before.len() && (#[trigger] out_before[m]).0@ == s1[j].0@;
                        assert(out@[m].0@ == s1[j].0@);
                    }
                }
            }
        }
        self.rows = out;
        proof {
            let m2 = self.table();
            let m1 = entries_map(s1);
            assert forall|k: Seq<char>| #[trigger] m2.contains_key(k) implies m1.contains_key(k)
                && m1[k].updated_ts >= updated_before && m2[k] == m1[k] by {
                let m = entry_index(out@, k);
                assert(0 <= m < out@.len() && out@[m].0@ == k);
                lemma_at_index(out@, m);
                assert(is_kept_row(s1, n as int, updated_before, out@[m]));
                let j = choose|j: int|
                    0 <= j < n && #[trigger] s1[j] == out@[m] && s1[j].1.updated_ts
                        >= updated_before;
                lemma_at_index(s1, j);
                assert(m2[k] == out@[m].1);
            }
            assert forall|k: Seq<char>|
                #[trigger] m1.contains_key(k) && m1[k].updated_ts
                    >= updated_before implies m2.contains_key(k) by {
                let j = entry_index(s1, k);
                assert(0 <= j < s1.len() && s1[j].0@ == k);
                lemma_at_index(s1, j);
                assert(s1[j].1.updated_ts >= updated_before);
                assert(has_id(out@, s1[j].0@));
            }
        }
    }

    /// Every row in the store, in no promised order.
    pub fn list_all(&self) -> (r: Vec<Session>)
        requires
            self.wf(),
        ensures
            r@.len() == self.count(),
            forall|m: int|
                0 <= m < r@.len() ==> self.table().contains_key(#[trigger] r@[m].hash_id@)
                    && self.table()[r@[m].hash_id@] == (SessionTimes {
                    created_ts: r@[m].created_ts,
                    updated_ts: r@[m].updated_ts,
                }),
            forall|k: Seq<char>|
                self.table().contains_key(k) ==> exists|m: int|
                    0 <= m < r@.len() && (#[trigger] r@[m]).hash_id@ == k,
    {
        let n = self.rows.len();
        let mut out: Vec<Session> = Vec::new();
        let mut i: usize = 0;
        while i < n
            invariant
                self.wf(),
                n == self.rows@.len(),
                i <= n,
                out@.len() == i,
                forall|m: int|
                    0 <= m < i ==> (#[trigger] out@[m]).hash_id@ == self.rows@[m].0@ && out@[m].created_ts
                        == self.rows@[m].1.created_ts && out@[m].updated_ts
                        == self.rows@[m].1.updated_ts,
            decreases n - i,
        {
            let e = &self.rows[i];
            out.push(Session { hash_id: e.0.clone(), created_ts: e.1.created_ts, updated_ts: e.1.updated_ts });
            i = i + 1;
        }
        proof {
            assert forall|m: int| 0 <= m < out@.len() implies self.table().contains_key(
                #[trigger] out@[m].hash_id@,
            ) && self.table()[out@[m].hash_id@] == (SessionTimes {
                created_ts: out@[m].created_ts,
                updated_ts: out@[m].updated_ts,
            }) by {
                lemma_at_index(self.rows@, m);
            }
            assert forall|k: Seq<char>| self.table().contains_key(k) implies exists|m: int|
                0 <= m < out@.len() && (#[trigger] out@[m]).hash_id@ == k by {
                let j = entry_index(self.rows@, k);
                assert(0 <= j < self.rows@.len() && self.rows@[j].0@ == k);
                assert(out@[j].hash_id@ == k);
            }
        }
        out
    }

    /// Number of rows, as the debug listing reports it.
    pub fn len(&self) -> (r: usize)
        ensures
            r == self.count(),
    {
        self.rows.len()
    }
}

/// Law: the identifiers holding a runtime entry stay a subset of the
/// identifiers with a persisted row, across a completed Connect round-trip:
/// whether the row already existed or the one returned by the registry was
/// created, and across any Disconnect.
pub proof fn lemma_connect_keeps_runtime_backed<H>(
    runtime: Map<Seq<char>, H>,
    table: Map<Seq<char>, SessionTimes>,
    id: Seq<char>,
    h: H,
    t: SessionTimes,
)
    requires
        forall|k: Seq<char>| runtime.contains_key(k) ==> table.contains_key(k),
    ensures
        forall|k: Seq<char>|
            runtime.insert(id, h).contains_key(k) ==> table.insert(id, t).contains_key(k),
        table.contains_key(id) ==> forall|k: Seq<char>|
            runtime.insert(id, h).contains_key(k) ==> table.contains_key(k),
        forall|k: Seq<char>| runtime.remove(id).contains_key(k) ==> table.contains_key(k),
{
}

/// Law: a sweep never orphans a live connection. Refreshing every runtime
/// identifier's row to `now` and then deleting rows staler than a threshold
/// at or before `now` leaves every runtime identifier with a row.
pub proof fn lemma_sweep_keeps_live_rows<H>(
    runtime: Map<Seq<char>, H>,
    refreshed: Map<Seq<char>, SessionTimes>,
    swept: Map<Seq<char>, SessionTimes>,
    now: i64,
    stale_before: i64,
)
    requires
        forall|k: Seq<char>|
            runtime.contains_key(k) ==> refreshed.contains_key(k)
                && refreshed[k].updated_ts == now,
        forall|k: Seq<char>|
            swept.contains_key(k) <==> (refreshed.contains_key(k) && refreshed[k].updated_ts
                >= stale_before),
        stale_before <= now,
    ensures
        forall|k: Seq<char>| runtime.contains_key(k) ==> swept.contains_key(k),
{
}

} // verus!
