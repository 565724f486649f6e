//! The session registry: the single authority over the runtime map from
//! session identifiers to live connection handles.
//!
//! All mutation goes through the methods here, one operation at a time. The
//! store round-trips that a Connect and the periodic sweep need happen
//! outside; the registry only decides, and its decisions are stated over the
//! mathematical map `sessions()`.

use vstd::prelude::*;
use vstd::string::StringExecFns;
use crate::protocol::{ViewMode, change_view_text, change_view_message};
use crate::strutil::{dec_str_of, u64_to_dec_string};
use crate::session::{Session, valid_hash_id, gen_hash_id};
use crate::idmap::{has_id, entries_map, unique_ids, lemma_at_index, lemma_update_entry, lemma_push_entry, lemma_remove_entry};

verus! {

/// Seconds between two maintenance sweeps. This is the short development
/// value; production deployments configure a much longer one (minutes).
pub const SWEEP_INTERVAL_SEC: i64 = 15;

/// What one sweep pass will do: one timestamp refresh per live identifier,
/// then one delete of everything staler than the threshold.
pub struct SweepPlan {
    /// Identifiers whose rows get a timestamp refresh, one call each.
    pub refresh_ids: Vec<String>,
    /// The single stale-delete call removes rows updated before this time.
    pub stale_before: i64,
}

/// The runtime map of live connections, keyed by session identifier.
///
/// `H` is the connection-handle reference the surrounding transport layer
/// registers; the registry never looks inside one.
pub struct SessionRegistry<H> {
    entries: Vec<(String, H)>,
    visitors: u64,
}

impl<H> SessionRegistry<H> {
    /// The registry as a map from identifier to handle.
    pub closed spec fn sessions(&self) -> Map<Seq<char>, H> {
        entries_map(self.entries@)
    }

    /// Number of runtime entries.
    pub closed spec fn count(&self) -> nat {
        self.entries@.len()
    }

    /// Internal well-formedness: one entry per identifier.
    pub closed spec fn wf(&self) -> bool {
        unique_ids(self.entries@)
    }

    /// How many Connects this registry has completed over its lifetime.
    pub closed spec fn visitors(&self) -> u64 {
        self.visitors
    }

    /// The visitor count as an executable value.
    pub fn visitor_count(&self) -> (r: u64)
        ensures
            r == self.visitors(),
    {
        self.visitors
    }

    /// An empty registry: no client is connected.
    pub fn new() -> (r: SessionRegistry<H>)
        ensures
            r.wf(),
            r.sessions() == Map::<Seq<char>, H>::empty(),
            r.count() == 0,
            r.visitors() == 0,
    {
        let r = SessionRegistry { entries: Vec::new(), visitors: 0 };
        proof {
            assert(r.sessions() =~= Map::<Seq<char>, H>::empty());
        }
        r
    }

    fn find_index(&self, id: &String) -> (r: Option<usize>)
        requires
            self.wf(),
        ensures
            match r {
                Some(i) => i < self.entries@.len() && self.entries@[i as int].0@ == id@,
                None => !has_id(self.entries@, id@),
            },
    {
        let n = self.entries.len();
        let mut i: usize = 0;
        while i < n
            invariant
                n == self.entries@.len(),
                i <= n,
                forall|j: int| 0 <= j < i ==> (#[trigger] self.entries@[j]).0@ != id@,
            decreases n - i,
        {
            if self.entries[i].0 == *id {
                return Some(i);
            }
            i = i + 1;
        }
        None
    }

    /// Is a connection currently registered under `id`?
    pub fn contains(&self, id: &String) -> (r: bool)
        requires
            self.wf(),
        ensures
            r == self.sessions().contains_key(id@),
    {
        let found = self.find_index(id);
        proof {
            if let Some(i) = found {
                lemma_at_index(self.entries@, i as int);
            }
        }
        found.is_some()
    }

    /// Upserts `handle` under `id`: a prior handle for the same identifier
    /// is replaced, every other entry is untouched.
    pub fn register(&mut self, id: String, handle: H)
        requires
            old(self).wf(),
        ensures
            final(self).wf(),
            final(self).sessions() == old(self).sessions().insert(id@, handle),
            old(self).sessions().contains_key(id@) ==> final(self).count() == old(self).count(),
            !old(self).sessions().contains_key(id@) ==> final(self).count() == old(self).count()
                + 1,
            final(self).visitors() == old(self).visitors(),
    {
        let ghost s1 = self.entries@;
        match self.find_index(&id) {
            Some(i) => {
                proof {
                    lemma_at_index(s1, i as int);
                    lemma_update_entry(s1, i as int, id, handle);
                }
                self.entries[i] = (id, handle);
            },
            None => {
                proof {
                    lemma_push_entry(s1, id, handle);
                }
                self.entries.push((id, handle));
            },
        }
    }

    /// Removes the entry for `id` if there is one; knows nothing and does
    /// nothing for an unknown identifier, and never errors.
    pub fn disconnect(&mut self, id: &String)
        requires
            old(self).wf(),
        ensures
            final(self).wf(),
            final(self).sessions() == old(self).sessions().remove(id@),
            old(self).sessions().contains_key(id@) ==> final(self).count() == old(self).count()
                - 1,
            !old(self).sessions().contains_key(id@) ==> final(self).count() == old(self).count(),
            final(self).visitors() == old(self).visitors(),
    {
        let ghost s1 = self.entries@;
        match self.find_index(id) {
            Some(i) => {
                proof {
                    lemma_at_index(s1, i as int);
                    lemma_remove_entry(s1, i as int);
                }
                self.entries.remove(i);
            },
            None => {
                proof {
                    assert(self.sessions() =~= self.sessions().remove(id@));
                }
            },
        }
    }

    /// The handle registered under `id`, if any.
    pub fn lookup(&self, id: &String) -> (r: Option<&H>)
        requires
            self.wf(),
        ensures
            match r {
                Some(h) => self.sessions().contains_key(id@) && *h == self.sessions()[id@],
                None => !self.sessions().contains_key(id@),
            },
    {
        match self.find_index(id) {
            Some(i) => {
                proof {
                    lemma_at_index(self.entries@, i as int);
                }
                Some(&self.entries[i].1)
            },
            None => None,
        }
    }

    /// Change-view delivery decision: while `id` has a runtime entry this
    /// yields exactly one message encoding `view` for that handle; for an
    /// unknown or disconnected `id` it yields none, and that is success.
    pub fn change_view(&self, id: &String, view: ViewMode) -> (r: Option<String>)
        requires
            self.wf(),
        ensures
            self.sessions().contains_key(id@) ==> (r matches Some(m) && m@ == change_view_text(
                view,
            )),
            !self.sessions().contains_key(id@) ==> r is None,
    {
        match self.lookup(id) {
            Some(_) => Some(change_view_message(view)),
            None => None,
        }
    }

    /// A snapshot of the registered identifiers: each exactly once, in no
    /// promised order.
    pub fn list_sessions(&self) -> (r: Vec<String>)
        requires
            self.wf(),
        ensures
            r@.len() == self.count(),
            forall|i: int|
                0 <= i < r@.len() ==> self.sessions().contains_key(#[trigger] r@[i]@),
            forall|k: Seq<char>|
                self.sessions().contains_key(k) ==> exists|i: int|
                    0 <= i < r@.len() && (#[trigger] r@[i])@ == k,
            forall|i: int, j: int| 0 <= i < j < r@.len() ==> (#[trigger] r@[i])@ != (
            #[trigger] r@[j])@,
    {
        let n = self.entries.len();
        let mut out: Vec<String> = Vec::new();
        let mut i: usize = 0;
        while i < n
            invariant
                self.wf(),
                n == self.entries@.len(),
                i <= n,
                out@.len() == i,
                forall|j: int| 0 <= j < i ==> (#[trigger] out@[j])@ == self.entries@[j].0@,
            decreases n - i,
        {
            out.push(self.entries[i].0.clone());
            i = i + 1;
        }
        proof {
            assert forall|i2: int| 0 <= i2 < out@.len() implies self.sessions().contains_key(
                #[trigger] out@[i2]@,
            ) by {
                lemma_at_index(self.entries@, i2);
            }
            assert forall|k: Seq<char>| self.sessions().contains_key(k) implies exists|i2: int|
                0 <= i2 < out@.len() && (#[trigger] out@[i2])@ == k by {
                let j = choose|j: int|
                    0 <= j < self.entries@.len() && (#[trigger] self.entries@[j]).0@ == k;
                assert(out@[j]@ == k);
            }
        }
        out
    }

    /// The plan for one maintenance sweep at time `now`: one timestamp
    /// refresh per registered identifier — exactly `count()` of them, each
    /// identifier once — and one stale-delete with threshold
    /// `now - timeout_secs`.
    pub fn sweep_plan(&self, now: i64, timeout_secs: i64) -> (r: SweepPlan)
        requires
            self.wf(),
            i64::MIN <= now - timeout_secs <= i64::MAX,
        ensures
            r.refresh_ids@.len() == self.count(),
            forall|i: int|
                0 <= i < r.refresh_ids@.len() ==> self.sessions().contains_key(
                    #[trigger] r.refresh_ids@[i]@,
                ),
            forall|k: Seq<char>|
                self.sessions().contains_key(k) ==> exists|i: int|
                    0 <= i < r.refresh_ids@.len() && (#[trigger] r.refresh_ids@[i])@ == k,
            forall|i: int, j: int|
                0 <= i < j < r.refresh_ids@.len() ==> (#[trigger] r.refresh_ids@[i])@ != (
                #[trigger] r.refresh_ids@[j])@,
            r.stale_before == now - timeout_secs,
    {
        SweepPlan { refresh_ids: self.list_sessions(), stale_before: now - timeout_secs }
    }

    /// Completion step of a Connect, applied once the store lookup for
    /// `resolved_id` has come back: the handle is always upserted into the
    /// runtime map, and if the store had no row the one row to create is
    /// returned — persistence is a best-effort mirror, never a prerequisite
    /// for registration.
    pub fn connect_finish(
        &mut self,
        resolved_id: String,
        handle: H,
        row_exists: bool,
        now: i64,
    ) -> (r: Option<Session>)
        requires
            old(self).wf(),
        ensures
            final(self).wf(),
            final(self).sessions() == old(self).sessions().insert(resolved_id@, handle),
            row_exists ==> r is None,
            !row_exists ==> (r matches Some(row) && row.hash_id@ == resolved_id@ && row.created_ts
                == now && row.updated_ts == now),
            final(self).visitors() == (if old(self).visitors() < u64::MAX {
                old(self).visitors() + 1
            } else {
                old(self).visitors() as int
            }),
    {
        let row = if row_exists {
            None
        } else {
            Some(Session::with_id(resolved_id.clone(), now))
        };
        self.register(resolved_id, handle);
        if self.visitors < u64::MAX {
            self.visitors = self.visitors + 1;
        }
        row
    }
}

/// The broadcast line announcing the visitor count.
pub fn visitor_message(count: u64) -> (r: String)
    ensures
        r@ == "Total visitors "@ + dec_str_of(count as nat),
{
    let mut s = String::new();
    s.append("Total visitors ");
    let d = u64_to_dec_string(count);
    s.append(d.as_str());
    proof {
        assert(s@ =~= "Total visitors "@ + dec_str_of(count as nat));
    }
    s
}

/// Resolution step of a Connect: an empty inbound identifier is replaced
/// by a freshly minted one; any other identifier is adopted as it is.
pub fn resolve_connect_id(id: &String) -> (r: String)
    ensures
        id@.len() > 0 ==> r@ == id@,
        id@.len() == 0 ==> valid_hash_id(r@),
{
    if id.as_str().is_empty() {
        gen_hash_id()
    } else {
        id.clone()
    }
}

/// Law: after a Connect for `id` the runtime map holds `id` (with the very
/// handle that connected), and after the following Disconnect for `id` it
/// does not; no other identifier's entry is touched by the pair.
pub proof fn lemma_connect_then_disconnect<H>(m: Map<Seq<char>, H>, id: Seq<char>, h: H)
    ensures
        m.insert(id, h).contains_key(id),
        m.insert(id, h)[id] == h,
        !m.insert(id, h).remove(id).contains_key(id),
        forall|k: Seq<char>|
            k != id ==> (#[trigger] m.insert(id, h).remove(id).contains_key(k))
                == m.contains_key(k),
        forall|k: Seq<char>|
            k != id && m.contains_key(k) ==> m.insert(id, h).remove(id)[k] == m[k],
{
}

/// Law: once a Disconnect for `id` has been applied, `id` has no runtime
/// entry, so a ChangeView for `id` arriving afterwards yields no message
/// (see `SessionRegistry::change_view`).
pub proof fn lemma_no_delivery_after_disconnect<H>(m: Map<Seq<char>, H>, id: Seq<char>)
    ensures
        !m.remove(id).contains_key(id),
{
}

} // verus!
