use vstd::prelude::*;

verus! {

/// One entry of the user's library.
#[derive(Debug, Clone)]
pub struct LibraryItem {
    pub id: String,
    pub name: String,
    pub removed: bool,
}

/// The user's library entries, each id at most once, owned by the user `uid`.
#[derive(Debug, Clone)]
pub struct LibraryBucket {
    pub uid: Option<String>,
    pub items: Vec<LibraryItem>,
}

pub open spec fn ids_unique(items: Seq<LibraryItem>) -> bool {
    forall|i: int, j: int|
        0 <= i < items.len() && 0 <= j < items.len() && i != j ==> items[i].id@ != items[j].id@
}

/// The entry with id `id`, if there is one.
pub open spec fn lookup(items: Seq<LibraryItem>, id: Seq<char>) -> Option<LibraryItem> {
    if exists|i: int| 0 <= i < items.len() && items[i].id@ == id {
        Some(items[choose|i: int| 0 <= i < items.len() && items[i].id@ == id])
    } else {
        None
    }
}

/// The entries of `base` after merging `added` into it: on equal ids the entry of `added` wins.
pub open spec fn merged(base: Seq<LibraryItem>, added: Seq<LibraryItem>, id: Seq<char>) -> Option<
    LibraryItem,
> {
    match lookup(added, id) {
        Some(e) => Some(e),
        None => lookup(base, id),
    }
}

proof fn lemma_lookup_at(items: Seq<LibraryItem>, k: int)
    requires
        ids_unique(items),
        0 <= k < items.len(),
    ensures
        lookup(items, items[k].id@) == Some(items[k]),
{
    let id = items[k].id@;
    assert(exists|i: int| 0 <= i < items.len() && items[i].id@ == id);
    let c = choose|i: int| 0 <= i < items.len() && items[i].id@ == id;
    assert(c == k);
}

proof fn lemma_lookup_set(items: Seq<LibraryItem>, k: int, e: LibraryItem)
    requires
        ids_unique(items),
        0 <= k < items.len(),
        items[k].id@ == e.id@,
    ensures
        ids_unique(items.update(k, e)),
        forall|id: Seq<char>|
            lookup(items.update(k, e), id) == if id == e.id@ {
                Some(e)
            } else {
                lookup(items, id)
            },
{
    let n = items.update(k, e);
    assert(ids_unique(n));
    lemma_lookup_at(n, k);
    assert forall|id: Seq<char>| id != e.id@ implies lookup(n, id) == lookup(items, id) by {
        if exists|i: int| 0 <= i < items.len() && items[i].id@ == id {
            let i = choose|i: int| 0 <= i < items.len() && items[i].id@ == id;
            lemma_lookup_at(items, i);
            lemma_lookup_at(n, i);
        } else {
            assert(!exists|i: int| 0 <= i < n.len() && n[i].id@ == id);
        }
    }
}

proof fn lemma_lookup_push(items: Seq<LibraryItem>, e: LibraryItem)
    requires
        ids_unique(items),
        lookup(items, e.id@) is None,
    ensures
        ids_unique(items.push(e)),
        forall|id: Seq<char>|
            lookup(items.push(e), id) == if id == e.id@ {
                Some(e)
            } else {
                lookup(items, id)
            },
{
    let n = items.push(e);
    assert forall|i: int| 0 <= i < items.len() implies items[i].id@ != e.id@ by {
        lemma_lookup_at(items, i);
    }
    assert(ids_unique(n));
    lemma_lookup_at(n, items.len() as int);
    assert forall|id: Seq<char>| id != e.id@ implies lookup(n, id) == lookup(items, id) by {
        if exists|i: int| 0 <= i < items.len() && items[i].id@ == id {
            let i = choose|i: int| 0 <= i < items.len() && items[i].id@ == id;
            lemma_lookup_at(items, i);
            lemma_lookup_at(n, i);
        } else {
            assert(!exists|i: int| 0 <= i < n.len() && n[i].id@ == id);
        }
    }
}

proof fn lemma_lookup_prefix(items: Seq<LibraryItem>, j: int)
    requires
        ids_unique(items),
        0 <= j < items.len(),
    ensures
        ids_unique(items.subrange(0, j + 1)),
        forall|id: Seq<char>|
            lookup(items.subrange(0, j + 1), id) == if id == items[j].id@ {
                Some(items[j])
            } else {
                lookup(items.subrange(0, j), id)
            },
{
    let p = items.subrange(0, j);
    assert(items.subrange(0, j + 1) =~= p.push(items[j]));
    assert(ids_unique(p));
    assert(lookup(p, items[j].id@) is None) by {
        if exists|i: int| 0 <= i < p.len() && p[i].id@ == items[j].id@ {
            let i = choose|i: int| 0 <= i < p.len() && p[i].id@ == items[j].id@;
            assert(items[i].id@ == items[j].id@);
        }
    }
    lemma_lookup_push(p, items[j]);
}

impl LibraryItem {
    /// An equal copy of this entry.
    pub fn copy(&self) -> (r: LibraryItem)
        ensures
            r == *self,
    {
        LibraryItem { id: self.id.clone(), name: self.name.clone(), removed: self.removed }
    }
}

impl LibraryBucket {
    pub open spec fn wf(&self) -> bool {
        ids_unique(self.items@)
    }

    /// An empty library owned by `uid`.
    pub fn new(uid: Option<String>) -> (r: LibraryBucket)
        ensures
            r.wf(),
            r.uid == uid,
            r.items@.len() == 0,
    {
        LibraryBucket { uid, items: Vec::new() }
    }

    /// The position of the entry with id `id`.
    pub fn position(&self, id: &String) -> (r: Option<usize>)
        requires
            self.wf(),
        ensures
            r matches Some(k) ==> k < self.items@.len() && self.items@[k as int].id@ == id@,
            r is None <==> lookup(self.items@, id@) is None,
    {
        let n = self.items.len();
        let mut i: usize = 0;
        while i < n
            invariant
                n == self.items@.len(),
                i <= n,
                forall|j: int| 0 <= j < i ==> self.items@[j].id@ != id@,
            decreases n - i,
        {
            if self.items[i].id == *id {
                return Some(i);
            }
            i = i + 1;
        }
        None
    }

    /// Whether the library holds `id` as an entry that was not removed.
    pub fn contains_active(&self, id: &String) -> (r: bool)
        requires
            self.wf(),
        ensures
            r == (lookup(self.items@, id@) matches Some(e) && !e.removed),
    {
        match self.position(id) {
            Some(k) => {
                proof {
                    lemma_lookup_at(self.items@, k as int);
                }
                !self.items[k].removed
            },
            None => false,
        }
    }

    /// Adds `item`, replacing the entry with the same id if there is one.
    pub fn insert(&mut self, item: LibraryItem)
        requires
            old(self).wf(),
        ensures
            final(self).wf(),
            final(self).uid == old(self).uid,
            forall|id: Seq<char>|
                lookup(final(self).items@, id) == if id == item.id@ {
                    Some(item)
                } else {
                    lookup(old(self).items@, id)
                },
    {
        match self.position(&item.id) {
            Some(k) => {
                proof {
                    lemma_lookup_set(self.items@, k as int, item);
                }
                self.items.set(k, item);
            },
            None => {
                proof {
                    lemma_lookup_push(self.items@, item);
                }
                self.items.push(item);
            },
        }
    }

    /// Merges the entries of `other` into this library; an entry of `other`
    /// replaces one with the same id.
    pub fn merge_bucket(&mut self, other: &LibraryBucket)
        requires
            old(self).wf(),
            other.wf(),
        ensures
            final(self).wf(),
            final(self).uid == old(self).uid,
            forall|id: Seq<char>|
                lookup(final(self).items@, id) == merged(old(self).items@, other.items@, id),
    {
        let ghost base = self.items@;
        let n = other.items.len();
        let mut j: usize = 0;
        proof {
            assert(other.items@.subrange(0, 0).len() == 0);
        }
        while j < n
            invariant
                n == other.items@.len(),
                j <= n,
                other.wf(),
                self.wf(),
                self.uid == old(self).uid,
                base == old(self).items@,
                forall|id: Seq<char>|
                    lookup(self.items@, id) == merged(base, other.items@.subrange(0, j as int), id),
            decreases n - j,
        {
            proof {
                lemma_lookup_prefix(other.items@, j as int);
            }
            self.insert(other.items[j].copy());
            j = j + 1;
        }
        proof {
            assert(other.items@.subrange(0, n as int) =~= other.items@);
        }
    }
}

} // verus!
