use vstd::prelude::*;

use crate::model::{copy_items, Service};

verus! {

/// No two entries carry the same identifier.
pub open spec fn ids_unique(t: Seq<Service>) -> bool {
    forall|i: int, j: int| 0 <= i < j < t.len() ==> t[i].id != t[j].id
}

/// Some entry carries identifier `id`.
pub open spec fn has_id(t: Seq<Service>, id: u64) -> bool {
    exists|i: int| 0 <= i < t.len() && t[i].id == id
}

/// The entry with identifier `id`, if any.
pub open spec fn lookup(t: Seq<Service>, id: u64) -> Option<Service> {
    if has_id(t, id) {
        Some(t[choose|i: int| 0 <= i < t.len() && t[i].id == id])
    } else {
        None
    }
}

/// Merging one descriptor: it replaces the entry with its identifier in
/// place, or is appended when there is none.
pub open spec fn merge_one(t: Seq<Service>, s: Service) -> Seq<Service> {
    if has_id(t, s.id) {
        t.update(choose|i: int| 0 <= i < t.len() && t[i].id == s.id, s)
    } else {
        t.push(s)
    }
}

/// Merging a sequence of descriptors, in order.
pub open spec fn merge_all(t: Seq<Service>, svcs: Seq<Service>) -> Seq<Service>
    decreases svcs.len(),
{
    if svcs.len() == 0 {
        t
    } else {
        merge_one(merge_all(t, svcs.drop_last()), svcs.last())
    }
}

/// Under unique identifiers, the index of an identifier is the chosen one.
proof fn lemma_chosen_index(t: Seq<Service>, i: int)
    requires
        ids_unique(t),
        0 <= i < t.len(),
    ensures
        has_id(t, t[i].id),
        (choose|k: int| 0 <= k < t.len() && t[k].id == t[i].id) == i,
{
    let k = choose|k: int| 0 <= k < t.len() && t[k].id == t[i].id;
    assert(0 <= k < t.len() && t[k].id == t[i].id);
}

/// Merging one descriptor keeps identifiers unique, makes it the entry of
/// its identifier and leaves every other identifier alone.
pub proof fn lemma_merge_one(t: Seq<Service>, s: Service)
    requires
        ids_unique(t),
    ensures
        ids_unique(merge_one(t, s)),
        forall|id: u64| #[trigger] lookup(merge_one(t, s), id) == if id == s.id {
            Some(s)
        } else {
            lookup(t, id)
        },
{
    let m = merge_one(t, s);
    if has_id(t, s.id) {
        let k = choose|i: int| 0 <= i < t.len() && t[i].id == s.id;
        lemma_chosen_index(t, k);
        assert forall|id: u64| #[trigger] lookup(m, id) == if id == s.id {
            Some(s)
        } else {
            lookup(t, id)
        } by {
            if id == s.id {
                lemma_chosen_index(m, k);
            } else if has_id(t, id) {
                let j = choose|i: int| 0 <= i < t.len() && t[i].id == id;
                lemma_chosen_index(t, j);
                lemma_chosen_index(m, j);
            } else {
                assert(!has_id(m, id));
            }
        }
    } else {
        assert forall|id: u64| #[trigger] lookup(m, id) == if id == s.id {
            Some(s)
        } else {
            lookup(t, id)
        } by {
            if id == s.id {
                lemma_chosen_index(m, t.len() as int);
            } else if has_id(t, id) {
                let j = choose|i: int| 0 <= i < t.len() && t[i].id == id;
                lemma_chosen_index(t, j);
                lemma_chosen_index(m, j);
            } else {
                assert(!has_id(m, id));
            }
        }
    }
}

/// Merging a sequence keeps identifiers unique.
pub proof fn lemma_merge_all_unique(t: Seq<Service>, svcs: Seq<Service>)
    requires
        ids_unique(t),
    ensures
        ids_unique(merge_all(t, svcs)),
    decreases svcs.len(),
{
    if svcs.len() > 0 {
        lemma_merge_all_unique(t, svcs.drop_last());
        lemma_merge_one(merge_all(t, svcs.drop_last()), svcs.last());
    }
}

/// Of descriptors merged in order, the later overwrites the earlier: the
/// last descriptor with a given identifier is the entry of that identifier.
pub proof fn lemma_later_descriptor_wins(t: Seq<Service>, svcs: Seq<Service>, j: int)
    requires
        ids_unique(t),
        0 <= j < svcs.len(),
        forall|k: int| j < k < svcs.len() ==> svcs[k].id != svcs[j].id,
    ensures
        lookup(merge_all(t, svcs), svcs[j].id) == Some(svcs[j]),
    decreases svcs.len(),
{
    lemma_merge_all_unique(t, svcs.drop_last());
    lemma_merge_one(merge_all(t, svcs.drop_last()), svcs.last());
    if j < svcs.len() - 1 {
        lemma_later_descriptor_wins(t, svcs.drop_last(), j);
    }
}

/// The registry of known services, in order of first insertion.
pub struct ServiceTable {
    entries: Vec<Service>,
}

impl View for ServiceTable {
    type V = Seq<Service>;

    closed spec fn view(&self) -> Seq<Service> {
        self.entries@
    }
}

impl ServiceTable {
    /// The table's invariant: identifiers are unique.
    pub open spec fn wf(&self) -> bool {
        ids_unique(self@)
    }

    /// An empty table.
    pub fn new() -> (r: ServiceTable)
        ensures
            r.wf(),
            r@ == Seq::<Service>::empty(),
    {
        ServiceTable { entries: Vec::new() }
    }

    /// Number of services.
    pub fn len(&self) -> (r: usize)
        ensures
            r == self@.len(),
    {
        self.entries.len()
    }

    /// The services, in table order.
    pub fn services(&self) -> (r: Vec<Service>)
        ensures
            r@ == self@,
    {
        copy_items(&self.entries)
    }

    /// The service with identifier `id`, if any.
    pub fn get(&self, id: u64) -> (r: Option<Service>)
        requires
            self.wf(),
        ensures
            r == lookup(self@, id),
    {
        let mut i: usize = 0;
        while i < self.entries.len()
            invariant
                i <= self@.len(),
                self.wf(),
                forall|k: int| 0 <= k < i ==> self@[k].id != id,
            decreases self@.len() - i,
        {
            if self.entries[i].id == id {
                proof {
                    lemma_chosen_index(self@, i as int);
                }
                return Some(self.entries[i]);
            }
            i = i + 1;
        }
        None
    }

    /// An independent copy of the table.
    pub fn snapshot(&self) -> (r: ServiceTable)
        ensures
            r@ == self@,
    {
        ServiceTable { entries: copy_items(&self.entries) }
    }

    /// Remove every service.
    pub fn clear(&mut self)
        ensures
            final(self).wf(),
            final(self)@ == Seq::<Service>::empty(),
    {
        self.entries = Vec::new();
    }

    /// Merge one descriptor: it replaces the service with the same
    /// identifier, or is appended.
    pub fn merge(&mut self, s: Service)
        requires
            old(self).wf(),
        ensures
            final(self).wf(),
            final(self)@ == merge_one(old(self)@, s),
    {
        proof {
            lemma_merge_one(self@, s);
        }
        let mut i: usize = 0;
        while i < self.entries.len()
            invariant
                i <= self@.len(),
                self@ == old(self)@,
                ids_unique(self@),
                forall|k: int| 0 <= k < i ==> self@[k].id != s.id,
            decreases self@.len() - i,
        {
            if self.entries[i].id == s.id {
                proof {
                    lemma_chosen_index(self@, i as int);
                }
                self.entries.set(i, s);
                return;
            }
            i = i + 1;
        }
        self.entries.push(s);
    }

    /// Merge descriptors in order; a later descriptor overwrites an earlier
    /// one with the same identifier.
    pub fn merge_services(&mut self, services: Vec<Service>)
        requires
            old(self).wf(),
        ensures
            final(self).wf(),
            final(self)@ == merge_all(old(self)@, services@),
    {
        let mut i: usize = 0;
        while i < services.len()
            invariant
                i <= services@.len(),
                self.wf(),
                self@ == merge_all(old(self)@, services@.subrange(0, i as int)),
            decreases services@.len() - i,
        {
            proof {
                let p = services@.subrange(0, i as int + 1);
                assert(p.drop_last() =~= services@.subrange(0, i as int));
            }
            self.merge(services[i]);
            i = i + 1;
        }
        proof {
            assert(services@.subrange(0, i as int) =~= services@);
        }
    }
}

} // verus!
