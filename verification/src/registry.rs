//! The cluster registry: the authoritative map from cluster identity to
//! [`ClusterInfo`], source of truth for routing decisions.
//!
//! Entries are kept in order of registration recency (most recent last), so
//! the tie-break of [`ClusterRegistry::find_service`] — prefer the
//! most-recently-updated cluster — is deterministic by construction.
//!
//! The registry itself is a plain value: the process shares it across tasks
//! behind a lock, and every mutation goes through the whole-value operations
//! here, so readers never observe a partially-applied entry.
//!
//! Entries stay until explicitly removed: staleness-based eviction is the
//! caller's policy, driven by [`ClusterRegistry::remove`].

use vstd::prelude::*;
use crate::{ClusterId, ClusterInfo, ClusterInfoView};

verus! {

/// No two entries carry the same identity.
pub open spec fn ids_unique(entries: Seq<ClusterInfoView>) -> bool {
    forall|i: int, j: int|
        0 <= i < j < entries.len() ==> entries[i].id != entries[j].id
}

/// The entries with every entry of the given identity removed, order kept.
pub open spec fn without_id(entries: Seq<ClusterInfoView>, id: Seq<char>) -> Seq<ClusterInfoView>
    decreases entries.len(),
{
    if entries.len() == 0 {
        entries
    } else {
        let rest = without_id(entries.drop_last(), id);
        if entries.last().id == id {
            rest
        } else {
            rest.push(entries.last())
        }
    }
}

/// What registration does to the entries: the old entry for the identity (if
/// any) is dropped whole, and the new value is appended as the most recent.
pub open spec fn register_spec(entries: Seq<ClusterInfoView>, info: ClusterInfoView) -> Seq<
    ClusterInfoView,
> {
    without_id(entries, info.id).push(info)
}

/// Point lookup by identity, preferring the most recent entry.
pub open spec fn lookup_spec(entries: Seq<ClusterInfoView>, id: Seq<char>) -> Option<
    ClusterInfoView,
>
    decreases entries.len(),
{
    if entries.len() == 0 {
        None
    } else if entries.last().id == id {
        Some(entries.last())
    } else {
        lookup_spec(entries.drop_last(), id)
    }
}

/// Service resolution: the most-recently-updated cluster advertising the
/// (name, namespace) pair, or `None` when no cluster advertises it.
pub open spec fn find_service_spec(
    entries: Seq<ClusterInfoView>,
    name: Seq<char>,
    namespace: Seq<char>,
) -> Option<ClusterInfoView>
    decreases entries.len(),
{
    if entries.len() == 0 {
        None
    } else if entries.last().advertises(name, namespace) {
        Some(entries.last())
    } else {
        find_service_spec(entries.drop_last(), name, namespace)
    }
}

/// If no entry carries the identity, removing it changes nothing.
proof fn lemma_without_id_no_match(entries: Seq<ClusterInfoView>, id: Seq<char>)
    requires
        forall|k: int| 0 <= k < entries.len() ==> entries[k].id != id,
    ensures
        without_id(entries, id) =~= entries,
    decreases entries.len(),
{
    if entries.len() > 0 {
        lemma_without_id_no_match(entries.drop_last(), id);
    }
}

/// If exactly the entry at `i` carries the identity, removing the identity is
/// removing that entry.
proof fn lemma_without_id_single(entries: Seq<ClusterInfoView>, id: Seq<char>, i: int)
    requires
        0 <= i < entries.len(),
        entries[i].id == id,
        forall|k: int| 0 <= k < entries.len() && k != i ==> entries[k].id != id,
    ensures
        without_id(entries, id) =~= entries.remove(i),
    decreases entries.len(),
{
    if i == entries.len() - 1 {
        lemma_without_id_no_match(entries.drop_last(), id);
        assert(entries.remove(i) =~= entries.drop_last());
    } else {
        lemma_without_id_single(entries.drop_last(), id, i);
        assert(entries.drop_last().remove(i).push(entries.last()) =~= entries.remove(i));
    }
}

/// Lookup by one identity ignores removal of another.
proof fn lemma_lookup_without_other(entries: Seq<ClusterInfoView>, id: Seq<char>, id2: Seq<char>)
    requires
        id2 != id,
    ensures
        lookup_spec(without_id(entries, id), id2) == lookup_spec(entries, id2),
    decreases entries.len(),
{
    if entries.len() > 0 {
        lemma_lookup_without_other(entries.drop_last(), id, id2);
        let rest = without_id(entries.drop_last(), id);
        if entries.last().id != id {
            assert(rest.push(entries.last()).drop_last() =~= rest);
            assert(rest.push(entries.last()).last() == entries.last());
        }
    }
}

/// Registration is visible to lookup: the registered value is found under its
/// identity, and every other identity resolves as before. This is the
/// last-write-wins guarantee for a single call.
pub proof fn lemma_register_then_lookup(
    entries: Seq<ClusterInfoView>,
    info: ClusterInfoView,
    id2: Seq<char>,
)
    ensures
        lookup_spec(register_spec(entries, info), info.id) == Some(info),
        id2 != info.id ==> lookup_spec(register_spec(entries, info), id2) == lookup_spec(
            entries,
            id2,
        ),
{
    let after = register_spec(entries, info);
    assert(after.last() == info);
    assert(after.drop_last() =~= without_id(entries, info.id));
    if id2 != info.id {
        lemma_lookup_without_other(entries, info.id, id2);
    }
}

/// The effect of a whole sequence of registrations, first call first.
pub open spec fn apply_all(entries: Seq<ClusterInfoView>, ops: Seq<ClusterInfoView>) -> Seq<
    ClusterInfoView,
>
    decreases ops.len(),
{
    if ops.len() == 0 {
        entries
    } else {
        apply_all(register_spec(entries, ops.first()), ops.drop_first())
    }
}

/// Registrations for other identities do not disturb a lookup.
proof fn lemma_apply_all_other(entries: Seq<ClusterInfoView>, ops: Seq<ClusterInfoView>, id: Seq<char>)
    requires
        forall|j: int| 0 <= j < ops.len() ==> (#[trigger] ops[j]).id != id,
    ensures
        lookup_spec(apply_all(entries, ops), id) == lookup_spec(entries, id),
    decreases ops.len(),
{
    if ops.len() > 0 {
        lemma_register_then_lookup(entries, ops.first(), id);
        lemma_apply_all_other(register_spec(entries, ops.first()), ops.drop_first(), id);
    }
}

/// Last write wins. For any sequence of registrations, a lookup after the
/// whole sequence returns exactly the value of the last registration for that
/// identity, whatever was registered before or for other identities.
pub proof fn lemma_last_write_wins(
    entries: Seq<ClusterInfoView>,
    ops: Seq<ClusterInfoView>,
    i: int,
)
    requires
        0 <= i < ops.len(),
        forall|j: int| i < j < ops.len() ==> (#[trigger] ops[j]).id != ops[i].id,
    ensures
        lookup_spec(apply_all(entries, ops), ops[i].id) == Some(ops[i]),
    decreases ops.len(),
{
    if i == 0 {
        lemma_register_then_lookup(entries, ops.first(), ops.first().id);
        assert(forall|j: int|
            0 <= j < ops.drop_first().len() ==> (#[trigger] ops.drop_first()[j]).id != ops[0].id);
        lemma_apply_all_other(register_spec(entries, ops.first()), ops.drop_first(), ops[0].id);
    } else {
        assert(ops.drop_first()[i - 1] == ops[i]);
        assert(forall|j: int|
            i - 1 < j < ops.drop_first().len() ==> (#[trigger] ops.drop_first()[j]).id != ops
                .drop_first()[i - 1].id) by {
            assert(forall|j: int|
                i - 1 < j < ops.drop_first().len() ==> ops.drop_first()[j] == ops[j + 1]);
        }
        lemma_last_write_wins(register_spec(entries, ops.first()), ops.drop_first(), i - 1);
    }
}

/// Removal keeps only values that were already there.
proof fn lemma_without_id_contains(entries: Seq<ClusterInfoView>, id: Seq<char>)
    ensures
        forall|k: int|
            0 <= k < without_id(entries, id).len() ==> entries.contains(
                #[trigger] without_id(entries, id)[k],
            ),
    decreases entries.len(),
{
    if entries.len() > 0 {
        let prev = entries.drop_last();
        lemma_without_id_contains(prev, id);
        let w = without_id(entries, id);
        assert forall|k: int| 0 <= k < w.len() implies entries.contains(w[k]) by {
            if entries.last().id == id {
                assert(w[k] == without_id(prev, id)[k]);
                assert(prev.contains(w[k]));
                let i = choose|i: int| 0 <= i < prev.len() && prev[i] == w[k];
                assert(entries[i] == w[k]);
            } else if k < w.len() - 1 {
                assert(w[k] == without_id(prev, id)[k]);
                assert(prev.contains(w[k]));
                let i = choose|i: int| 0 <= i < prev.len() && prev[i] == w[k];
                assert(entries[i] == w[k]);
            } else {
                assert(entries[entries.len() - 1] == w[k]);
            }
        }
    }
}

/// Replacement is whole-value: after a registration, every entry the
/// registry holds is either the newly registered value or an entry that was
/// already there — never a mixture of fields from two registrations. A
/// snapshot taken between any two registrations therefore only ever shows
/// fully-applied values.
pub proof fn lemma_register_whole_values(entries: Seq<ClusterInfoView>, info: ClusterInfoView)
    ensures
        forall|k: int|
            0 <= k < register_spec(entries, info).len() ==> register_spec(entries, info)[k] == info
                || entries.contains(#[trigger] register_spec(entries, info)[k]),
{
    lemma_without_id_contains(entries, info.id);
    let after = register_spec(entries, info);
    assert forall|k: int| 0 <= k < after.len() implies after[k] == info || entries.contains(
        after[k],
    ) by {
        if k < after.len() - 1 {
            assert(after[k] == without_id(entries, info.id)[k]);
        }
    }
}

/// Resolution is `None` exactly when no entry advertises the pair.
pub proof fn lemma_find_service_none(
    entries: Seq<ClusterInfoView>,
    name: Seq<char>,
    namespace: Seq<char>,
)
    ensures
        find_service_spec(entries, name, namespace) is None <==> (forall|k: int|
            0 <= k < entries.len() ==> !(#[trigger] entries[k]).advertises(name, namespace)),
    decreases entries.len(),
{
    if entries.len() > 0 {
        lemma_find_service_none(entries.drop_last(), name, namespace);
        assert(entries[entries.len() - 1] == entries.last());
        assert(forall|k: int| 0 <= k < entries.len() - 1 ==> entries.drop_last()[k] == entries[k]);
    }
}

/// A resolved cluster really advertises the pair.
pub proof fn lemma_find_service_some(
    entries: Seq<ClusterInfoView>,
    name: Seq<char>,
    namespace: Seq<char>,
)
    ensures
        find_service_spec(entries, name, namespace) matches Some(c) ==> c.advertises(
            name,
            namespace,
        ),
    decreases entries.len(),
{
    if entries.len() > 0 {
        lemma_find_service_some(entries.drop_last(), name, namespace);
    }
}

/// The registered cluster wins resolution for every pair it advertises: the
/// most-recent-update tie-break, stated against registration.
pub proof fn lemma_register_wins_find(
    entries: Seq<ClusterInfoView>,
    info: ClusterInfoView,
    name: Seq<char>,
    namespace: Seq<char>,
)
    requires
        info.advertises(name, namespace),
    ensures
        find_service_spec(register_spec(entries, info), name, namespace) == Some(info),
{
    assert(register_spec(entries, info).last() == info);
}

/// The views of the clusters a vector holds, in order.
pub open spec fn views_of(v: Seq<ClusterInfo>) -> Seq<ClusterInfoView> {
    Seq::new(v.len(), |i: int| v[i]@)
}

/// Thread-safe authoritative map from cluster identity to [`ClusterInfo`],
/// held as a recency-ordered vector with unique identities. All mutation is
/// replace-whole-value: no caller ever sees an entry with fields from two
/// different registrations.
pub struct ClusterRegistry {
    entries: Vec<ClusterInfo>,
}

impl View for ClusterRegistry {
    type V = Seq<ClusterInfoView>;

    closed spec fn view(&self) -> Seq<ClusterInfoView> {
        views_of(self.entries@)
    }
}

impl ClusterRegistry {
    /// Identities are unique; holds of every registry the operations produce.
    pub open spec fn wf(&self) -> bool {
        ids_unique(self@)
    }

    pub fn new() -> (r: ClusterRegistry)
        ensures
            r@ =~= Seq::<ClusterInfoView>::empty(),
            r.wf(),
    {
        ClusterRegistry { entries: Vec::new() }
    }

    /// Number of known clusters.
    pub fn len(&self) -> (r: usize)
        ensures
            r == self@.len(),
    {
        self.entries.len()
    }

    /// The index of the entry for the identity, if one exists.
    fn position_of(&self, id: &ClusterId) -> (r: Option<usize>)
        ensures
            match r {
                Some(i) => i < self@.len() && self@[i as int].id == id.id_seq() && (forall|k: int|
                    0 <= k < i ==> (#[trigger] self@[k]).id != id.id_seq()),
                None => forall|k: int|
                    0 <= k < self@.len() ==> (#[trigger] self@[k]).id != id.id_seq(),
            },
    {
        let n = self.entries.len();
        let mut i: usize = 0;
        while i < n
            invariant
                n == self@.len(),
                i <= n,
                forall|k: int| 0 <= k < i ==> (#[trigger] self@[k]).id != id.id_seq(),
            decreases n - i,
        {
            if self.entries[i].id.same_as(id) {
                return Some(i);
            }
            i += 1;
        }
        None
    }

    /// Inserts or replaces the entry for `info.id` as one whole value, making
    /// it the most recent. Idempotent and total: never fails.
    pub fn register_or_update(&mut self, info: ClusterInfo)
        requires
            old(self).wf(),
        ensures
            final(self)@ =~= register_spec(old(self)@, info@),
            final(self).wf(),
    {
        let ghost old_view = self@;
        match self.position_of(&info.id) {
            Some(i) => {
                proof {
                    lemma_without_id_single(old_view, info@.id, i as int);
                }
                self.entries.remove(i);
            }
            None => {
                proof {
                    lemma_without_id_no_match(old_view, info@.id);
                }
            }
        }
        proof {
            assert(views_of(self.entries@) =~= without_id(old_view, info@.id));
        }
        let ghost removed_view = views_of(self.entries@);
        self.entries.push(info);
        proof {
            assert(views_of(self.entries@) =~= removed_view.push(info@));
            assert forall|a: int, b: int| 0 <= a < b < self@.len() implies self@[a].id
                != self@[b].id by {
                if b < self@.len() - 1 {
                    assert(ids_unique(removed_view));
                }
            }
        }
    }

    /// Point lookup, no side effects: a copy of the entry for the identity.
    pub fn get(&self, id: &ClusterId) -> (r: Option<ClusterInfo>)
        requires
            self.wf(),
        ensures
            match r {
                Some(c) => lookup_spec(self@, id.id_seq()) == Some(c@),
                None => lookup_spec(self@, id.id_seq()) is None,
            },
    {
        match self.position_of(id) {
            Some(i) => {
                proof {
                    lemma_lookup_at(self@, id.id_seq(), i as int);
                }
                Some(self.entries[i].clone())
            }
            None => {
                proof {
                    lemma_lookup_none(self@, id.id_seq());
                }
                None
            }
        }
    }

    /// A snapshot of all known clusters at call time: a copy, so concurrent
    /// writers cannot invalidate it, each entry whole.
    pub fn list(&self) -> (r: Vec<ClusterInfo>)
        ensures
            views_of(r@) =~= self@,
    {
        let n = self.entries.len();
        let mut out: Vec<ClusterInfo> = Vec::new();
        let mut i: usize = 0;
        while i < n
            invariant
                n == self.entries@.len(),
                i <= n,
                out@.len() == i,
                forall|k: int| 0 <= k < i ==> out@[k]@ == (#[trigger] self.entries@[k])@,
            decreases n - i,
        {
            out.push(self.entries[i].clone());
            i += 1;
        }
        proof {
            assert(views_of(out@) =~= views_of(self.entries@));
        }
        out
    }

    /// Which cluster hosts the given service: a copy of the
    /// most-recently-updated cluster advertising (name, namespace), or `None`
    /// when no registered cluster advertises the pair.
    pub fn find_service(&self, name: &str, namespace: &str) -> (r: Option<ClusterInfo>)
        ensures
            match r {
                Some(c) => find_service_spec(self@, name@, namespace@) == Some(c@),
                None => find_service_spec(self@, name@, namespace@) is None,
            },
    {
        let name_s: String = name.to_owned();
        let namespace_s: String = namespace.to_owned();
        let n = self.entries.len();
        proof {
            assert(self@.take(n as int) =~= self@);
        }
        let mut i: usize = n;
        while i > 0
            invariant
                n == self@.len(),
                i <= n,
                find_service_spec(self@, name@, namespace@) == find_service_spec(
                    self@.take(i as int),
                    name@,
                    namespace@,
                ),
                name_s@ == name@,
                namespace_s@ == namespace@,
            decreases i,
        {
            i -= 1;
            let ghost prefix = self@.take(i + 1);
            proof {
                assert(prefix.last() == self@[i as int]);
                assert(prefix.drop_last() =~= self@.take(i as int));
            }
            if cluster_advertises(&self.entries[i], &name_s, &namespace_s) {
                return Some(self.entries[i].clone());
            }
        }
        proof {
            assert(self@.take(0) =~= Seq::<ClusterInfoView>::empty());
        }
        None
    }

    /// Deletes the entry for the identity, whole; used on explicit departure.
    pub fn remove(&mut self, id: &ClusterId)
        requires
            old(self).wf(),
        ensures
            final(self)@ =~= without_id(old(self)@, id.id_seq()),
            final(self).wf(),
    {
        let ghost old_view = self@;
        match self.position_of(id) {
            Some(i) => {
                proof {
                    lemma_without_id_single(old_view, id.id_seq(), i as int);
                }
                self.entries.remove(i);
                proof {
                    assert(views_of(self.entries@) =~= old_view.remove(i as int));
                }
            }
            None => {
                proof {
                    lemma_without_id_no_match(old_view, id.id_seq());
                }
            }
        }
    }
}

/// Lookup finds the single entry carrying the identity.
proof fn lemma_lookup_at(entries: Seq<ClusterInfoView>, id: Seq<char>, i: int)
    requires
        0 <= i < entries.len(),
        entries[i].id == id,
        ids_unique(entries),
    ensures
        lookup_spec(entries, id) == Some(entries[i]),
    decreases entries.len(),
{
    if i < entries.len() - 1 {
        lemma_lookup_at(entries.drop_last(), id, i);
    }
}

/// Lookup misses when no entry carries the identity.
proof fn lemma_lookup_none(entries: Seq<ClusterInfoView>, id: Seq<char>)
    requires
        forall|k: int| 0 <= k < entries.len() ==> (#[trigger] entries[k]).id != id,
    ensures
        lookup_spec(entries, id) is None,
    decreases entries.len(),
{
    if entries.len() > 0 {
        lemma_lookup_none(entries.drop_last(), id);
    }
}

/// Whether the cluster advertises the (name, namespace) pair.
fn cluster_advertises(cluster: &ClusterInfo, name: &String, namespace: &String) -> (r: bool)
    ensures
        r == cluster@.advertises(name@, namespace@),
{
    let n = cluster.services.len();
    let mut i: usize = 0;
    while i < n
        invariant
            n == cluster.services@.len(),
            i <= n,
            forall|k: int|
                0 <= k < i ==> !(cluster@.services[k].name == name@ && cluster@.services[k].namespace
                    == namespace@),
        decreases n - i,
    {
        if cluster.services[i].name == *name && cluster.services[i].namespace == *namespace {
            assert(cluster@.services[i as int].name == name@);
            return true;
        }
        i += 1;
    }
    false
}

} // verus!
