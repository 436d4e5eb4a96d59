use vstd::prelude::*;

use crate::identity::ip_of;

verus! {

/// One managed microVM instance ("workstation"). Every field is set at
/// creation and immutable afterwards; only the record's presence in the
/// [`Registry`] changes over its life.
pub struct Workstation {
    pub id: String,
    pub ip_address: String,
    pub order: u32,
    pub vcpu_count: u64,
    pub mem_size_mib: u32,
    pub smt_enabled: bool,
    pub read_only: bool,
    pub bandwidth: u64,
}

impl Workstation {
    /// Well-formedness: the identity fields are exactly what allocation
    /// derives from `order`, the identifier has the fixed generated
    /// length, and the requested shape is non-degenerate.
    pub open spec fn wf(self) -> bool {
        &&& 2 <= self.order
        &&& 0 < self.vcpu_count
        &&& 0 < self.mem_size_mib
        &&& self.id@.len() == 36
        &&& self.ip_address@ == ip_of(self.order)
    }
}

impl Clone for Workstation {
    fn clone(&self) -> (r: Self)
        ensures
            r == *self,
    {
        Workstation {
            id: self.id.clone(),
            ip_address: self.ip_address.clone(),
            order: self.order,
            vcpu_count: self.vcpu_count,
            mem_size_mib: self.mem_size_mib,
            smt_enabled: self.smt_enabled,
            read_only: self.read_only,
            bandwidth: self.bandwidth,
        }
    }
}

/// Whether some record in `s` carries the identifier `k`.
spec fn has_id(s: Seq<Workstation>, k: Seq<char>) -> bool {
    exists|i: int| 0 <= i < s.len() && (#[trigger] s[i]).id@ == k
}

/// The index of the record carrying `k` (meaningful only under `has_id`
/// and distinct identifiers).
spec fn key_index(s: Seq<Workstation>, k: Seq<char>) -> int {
    choose|i: int| 0 <= i < s.len() && (#[trigger] s[i]).id@ == k
}

/// All records carry pairwise distinct identifiers.
pub open spec fn distinct_ids(s: Seq<Workstation>) -> bool {
    forall|i: int, j: int|
        0 <= i < s.len() && 0 <= j < s.len() && i != j ==> (#[trigger] s[i]).id@ != (
        #[trigger] s[j]).id@
}

/// The mapping from identifier to record that a record sequence denotes.
spec fn map_of(s: Seq<Workstation>) -> Map<Seq<char>, Workstation> {
    Map::new(|k: Seq<char>| has_id(s, k), |k: Seq<char>| s[key_index(s, k)])
}

proof fn lemma_map_of_index(s: Seq<Workstation>, i: int)
    requires
        distinct_ids(s),
        0 <= i < s.len(),
    ensures
        map_of(s).contains_key(s[i].id@),
        map_of(s)[s[i].id@] == s[i],
{
    assert(has_id(s, s[i].id@));
    let j = key_index(s, s[i].id@);
    assert(0 <= j < s.len() && s[j].id@ == s[i].id@);
    assert(j == i);
}

proof fn lemma_not_found(s: Seq<Workstation>, k: Seq<char>)
    requires
        !has_id(s, k),
    ensures
        !map_of(s).contains_key(k),
{
}

/// What one `swap_remove` does to the denoted map.
proof fn lemma_swap_remove_map(s: Seq<Workstation>, i: int)
    requires
        distinct_ids(s),
        0 <= i < s.len(),
    ensures
        distinct_ids(s.update(i, s.last()).drop_last()),
        map_of(s.update(i, s.last()).drop_last()) == map_of(s).remove(s[i].id@),
{
    let t = s.update(i, s.last()).drop_last();
    let n = s.len() as int;
    assert(t.len() == n - 1);
    assert(forall|j: int|
        0 <= j < n - 1 ==> #[trigger] t[j] == (if j == i {
            s[n - 1]
        } else {
            s[j]
        }));
    assert forall|j1: int, j2: int|
        0 <= j1 < t.len() && 0 <= j2 < t.len() && j1 != j2 implies (#[trigger] t[j1]).id@ != (
    #[trigger] t[j2]).id@ by {
        let m1: int = if j1 == i { n - 1 } else { j1 };
        let m2: int = if j2 == i { n - 1 } else { j2 };
        assert(m1 != m2);
        assert(t[j1] == s[m1] && t[j2] == s[m2]);
    }
    let k0 = s[i].id@;
    assert forall|k: Seq<char>| #[trigger] has_id(t, k) implies has_id(s, k) && k != k0 by {
        let j = key_index(t, k);
        assert(0 <= j < t.len() && t[j].id@ == k);
        let m: int = if j == i { n - 1 } else { j };
        assert(s[m].id@ == k);
        assert(m != i);
    }
    assert forall|k: Seq<char>| has_id(s, k) && k != k0 implies #[trigger] has_id(t, k) by {
        let m = key_index(s, k);
        assert(0 <= m < n && s[m].id@ == k);
        assert(m != i);
        if m == n - 1 {
            assert(i < n - 1);
            assert(t[i] == s[n - 1]);
            assert(has_id(t, k));
        } else {
            assert(t[m] == s[m]);
            assert(has_id(t, k));
        }
    }
    assert forall|k: Seq<char>| #[trigger] map_of(t).contains_key(k) implies map_of(t)[k] == map_of(
        s,
    ).remove(k0)[k] by {
        let j = key_index(t, k);
        assert(0 <= j < t.len() && t[j].id@ == k);
        lemma_map_of_index(t, j);
        let m: int = if j == i { n - 1 } else { j };
        assert(t[j] == s[m] && s[m].id@ == k);
        lemma_map_of_index(s, m);
    }
    assert(map_of(t) =~= map_of(s).remove(k0));
}

/// What one `push` of a fresh identifier does to the denoted map.
proof fn lemma_push_map(s: Seq<Workstation>, w: Workstation)
    requires
        distinct_ids(s),
        !has_id(s, w.id@),
    ensures
        distinct_ids(s.push(w)),
        map_of(s.push(w)) == map_of(s).insert(w.id@, w),
{
    let t = s.push(w);
    let n = s.len() as int;
    assert(forall|j: int|
        0 <= j < n + 1 ==> #[trigger] t[j] == (if j < n {
            s[j]
        } else {
            w
        }));
    assert forall|j1: int, j2: int|
        0 <= j1 < t.len() && 0 <= j2 < t.len() && j1 != j2 implies (#[trigger] t[j1]).id@ != (
    #[trigger] t[j2]).id@ by {
        if j1 < n && j2 < n {
        } else if j1 == n {
            assert(t[j2] == s[j2]);
            assert(s[j2].id@ != w.id@);
        } else {
            assert(t[j1] == s[j1]);
            assert(s[j1].id@ != w.id@);
        }
    }
    assert forall|k: Seq<char>| #[trigger] has_id(t, k) implies has_id(s, k) || k == w.id@ by {
        let j = key_index(t, k);
        if j < n {
            assert(s[j].id@ == k);
        }
    }
    assert forall|k: Seq<char>| has_id(s, k) implies #[trigger] has_id(t, k) by {
        let m = key_index(s, k);
        assert(t[m] == s[m]);
    }
    assert(t[n] == w);
    assert(has_id(t, w.id@));
    assert forall|k: Seq<char>| #[trigger] map_of(t).contains_key(k) implies map_of(t)[k] == map_of(
        s,
    ).insert(w.id@, w)[k] by {
        let j = key_index(t, k);
        assert(0 <= j < t.len() && t[j].id@ == k);
        lemma_map_of_index(t, j);
        if j == n {
            assert(map_of(t)[k] == w);
        } else {
            assert(k != w.id@);
            assert(t[j] == s[j]);
            lemma_map_of_index(s, j);
        }
    }
    assert(map_of(t) =~= map_of(s).insert(w.id@, w));
}

/// The abstract state of the registry: the allocation counter and the
/// identifier-to-record mapping (insertion order is not represented:
/// callers may not rely on it).
pub ghost struct RegistryView {
    pub counter: u32,
    pub map: Map<Seq<char>, Workstation>,
}

/// The concurrency-safe in-memory instance store: a mapping from
/// identifier to record plus the monotonic allocation counter. The
/// unverified shell serializes access behind a lock; every operation here
/// is pure data manipulation and performs no I/O.
pub struct Registry {
    counter: u32,
    items: Vec<Workstation>,
}

impl View for Registry {
    type V = RegistryView;

    closed spec fn view(&self) -> RegistryView {
        RegistryView { counter: self.counter, map: map_of(self.items@) }
    }
}

impl Registry {
    /// Well-formedness: identifiers are distinct, every record is well
    /// formed, and every stored order was allocated, i.e. lies below the
    /// counter (which starts at 2 and never decreases).
    pub closed spec fn wf(self) -> bool {
        &&& distinct_ids(self.items@)
        &&& forall|i: int| 0 <= i < self.items@.len() ==> (#[trigger] self.items@[i]).wf()
        &&& forall|i: int|
            0 <= i < self.items@.len() ==> (#[trigger] self.items@[i]).order < self.counter
        &&& 2 <= self.counter
    }

    /// An empty registry with the counter at its initial value.
    pub fn new() -> (r: Registry)
        ensures
            r.wf(),
            r@.counter == 2,
            r@.map == Map::<Seq<char>, Workstation>::empty(),
    {
        let r = Registry { counter: 2, items: Vec::new() };
        proof {
            assert(map_of(r.items@) =~= Map::<Seq<char>, Workstation>::empty());
        }
        r
    }

    /// The order the next creation attempt will receive.
    pub fn next_order(&self) -> (r: u32)
        ensures
            r == self@.counter,
    {
        self.counter
    }

    /// Atomically reads and increments the allocation counter; the
    /// pre-increment value is the caller's order. Must run under the same
    /// lock as the rest of the enclosing creation's registry access.
    pub fn allocate_order(&mut self) -> (r: u32)
        requires
            old(self).wf(),
            old(self)@.counter < u32::MAX,
        ensures
            final(self).wf(),
            r == old(self)@.counter,
            2 <= r,
            final(self)@.counter == old(self)@.counter + 1,
            final(self)@.map == old(self)@.map,
    {
        let r = self.counter;
        self.counter = self.counter + 1;
        r
    }

    /// Looks up the record with identifier `id`.
    pub fn get(&self, id: &String) -> (r: Option<&Workstation>)
        requires
            self.wf(),
        ensures
            match r {
                Some(w) => self@.map.contains_key(id@) && *w == self@.map[id@] && w.wf(),
                None => !self@.map.contains_key(id@),
            },
    {
        let n = self.items.len();
        let mut i: usize = 0;
        while i < n
            invariant
                n == self.items@.len(),
                i <= n,
                forall|j: int| 0 <= j < i ==> (#[trigger] self.items@[j]).id@ != id@,
                self.wf(),
            decreases n - i,
        {
            if self.items[i].id == *id {
                proof {
                    lemma_map_of_index(self.items@, i as int);
                }
                return Some(&self.items[i]);
            }
            i = i + 1;
        }
        proof {
            lemma_not_found(self.items@, id@);
        }
        None
    }

    /// Removes and returns the record with identifier `id`; on an unknown
    /// identifier, returns `None` and changes nothing.
    pub fn remove(&mut self, id: &String) -> (r: Option<Workstation>)
        requires
            old(self).wf(),
        ensures
            final(self).wf(),
            final(self)@.counter == old(self)@.counter,
            match r {
                Some(w) => {
                    &&& old(self)@.map.contains_key(id@)
                    &&& w == old(self)@.map[id@]
                    &&& w.wf()
                    &&& final(self)@.map == old(self)@.map.remove(id@)
                },
                None => {
                    &&& !old(self)@.map.contains_key(id@)
                    &&& *final(self) == *old(self)
                },
            },
    {
        let n = self.items.len();
        let mut i: usize = 0;
        while i < n
            invariant
                *self == *old(self),
                n == self.items@.len(),
                i <= n,
                forall|j: int| 0 <= j < i ==> (#[trigger] self.items@[j]).id@ != id@,
                old(self).wf(),
            decreases n - i,
        {
            if self.items[i].id == *id {
                proof {
                    lemma_map_of_index(self.items@, i as int);
                    lemma_swap_remove_map(self.items@, i as int);
                }
                let w = self.items.swap_remove(i);
                return Some(w);
            }
            i = i + 1;
        }
        proof {
            lemma_not_found(self.items@, id@);
        }
        None
    }

    /// Inserts `w`, replacing any record that already carries the same
    /// identifier (map-insert semantics). The order must have come from
    /// `allocate_order`, i.e. lie below the counter.
    pub fn insert(&mut self, w: Workstation)
        requires
            old(self).wf(),
            w.wf(),
            w.order < old(self)@.counter,
        ensures
            final(self).wf(),
            final(self)@.counter == old(self)@.counter,
            final(self)@.map == old(self)@.map.insert(w.id@, w),
    {
        let ghost pre = self@.map;
        let _previous = self.remove(&w.id);
        proof {
            assert(!map_of(self.items@).contains_key(w.id@));
            assert(!has_id(self.items@, w.id@));
            lemma_push_map(self.items@, w);
            if _previous is Some {
                assert(pre.remove(w.id@).insert(w.id@, w) =~= pre.insert(w.id@, w));
            }
        }
        self.items.push(w);
    }

    /// A snapshot copy of all records. Order is not significant: the
    /// snapshot carries exactly the registered records, each once.
    pub fn list(&self) -> (r: Vec<Workstation>)
        requires
            self.wf(),
        ensures
            distinct_ids(r@),
            forall|i: int|
                0 <= i < r@.len() ==> self@.map.contains_key((#[trigger] r@[i]).id@)
                    && self@.map[r@[i].id@] == r@[i],
            forall|k: Seq<char>|
                #[trigger] self@.map.contains_key(k) ==> exists|i: int|
                    0 <= i < r@.len() && (#[trigger] r@[i]).id@ == k,
    {
        let n = self.items.len();
        let mut r: Vec<Workstation> = Vec::new();
        let mut i: usize = 0;
        while i < n
            invariant
                n == self.items@.len(),
                i <= n,
                r@.len() == i,
                forall|j: int| 0 <= j < i ==> #[trigger] r@[j] == self.items@[j],
                self.wf(),
            decreases n - i,
        {
            r.push(self.items[i].clone());
            i = i + 1;
        }
        proof {
            assert forall|i: int|
                0 <= i < r@.len() implies self@.map.contains_key((#[trigger] r@[i]).id@)
                && self@.map[r@[i].id@] == r@[i] by {
                lemma_map_of_index(self.items@, i);
            }
            assert forall|k: Seq<char>| #[trigger] self@.map.contains_key(k) implies exists|i: int|
                0 <= i < r@.len() && (#[trigger] r@[i]).id@ == k by {
                let m = key_index(self.items@, k);
                assert(r@[m].id@ == k);
            }
        }
        r
    }

    /// Looks up some record whose order is `order` (during normal
    /// operation there is at most one, since each order is allocated
    /// once).
    pub fn find_by_order(&self, order: u32) -> (r: Option<&Workstation>)
        requires
            self.wf(),
        ensures
            match r {
                Some(w) => self@.map.contains_key(w.id@) && self@.map[w.id@] == *w && w.order
                    == order && w.wf(),
                None => !registered_with_order(self@.map, order),
            },
    {
        let n = self.items.len();
        let mut i: usize = 0;
        while i < n
            invariant
                n == self.items@.len(),
                i <= n,
                forall|j: int| 0 <= j < i ==> (#[trigger] self.items@[j]).order != order,
                self.wf(),
            decreases n - i,
        {
            if self.items[i].order == order {
                proof {
                    lemma_map_of_index(self.items@, i as int);
                }
                return Some(&self.items[i]);
            }
            i = i + 1;
        }
        proof {
            assert forall|k: Seq<char>| #[trigger] self@.map.contains_key(k) implies self@.map[k].order
                != order by {
                let j = key_index(self.items@, k);
                assert(0 <= j < self.items@.len() && self.items@[j].id@ == k);
                lemma_map_of_index(self.items@, j);
            }
        }
        None
    }

    /// Law: in a well-formed registry every registered record is well
    /// formed and its order lies strictly below the counter. Together
    /// with `allocate_order` (which returns the counter and increments
    /// it), a fresh order therefore exceeds every order ever stored:
    /// orders strictly increase and are never reused, even across
    /// intermixed creations and deletions.
    pub proof fn lemma_orders_below_counter(self)
        requires
            self.wf(),
        ensures
            2 <= self@.counter,
            forall|k: Seq<char>| #[trigger]
                self@.map.contains_key(k) ==> self@.map[k].wf() && self@.map[k].order
                    < self@.counter,
    {
        assert forall|k: Seq<char>| #[trigger] self@.map.contains_key(k) implies self@.map[k].wf()
            && self@.map[k].order < self@.counter by {
            let i = key_index(self.items@, k);
            assert(0 <= i < self.items@.len() && self.items@[i].id@ == k);
            lemma_map_of_index(self.items@, i);
        }
    }
}

/// Whether some registered record carries the allocation order `order`.
pub open spec fn registered_with_order(m: Map<Seq<char>, Workstation>, order: u32) -> bool {
    exists|k: Seq<char>| #[trigger] m.contains_key(k) && m[k].order == order
}

/// Whether some element of `s` equals `v`.
pub open spec fn hits(s: Seq<u32>, v: u32) -> bool {
    exists|k: int| 0 <= k < s.len() && s[k] == v
}

/// Law: a run of `n` consecutive allocations starting at counter `c`
/// hands out exactly the orders `c, c + 1, ..., c + n - 1` — strictly
/// increasing, pairwise distinct, and contiguous (no gaps, no
/// duplicates). Concurrent creations are serialized through the
/// registry's lock, so any `n` simultaneous creations receive such a run.
pub proof fn lemma_allocation_run_contiguous(c: u32, n: u32)
    requires
        c + n <= u32::MAX,
    ensures
        ({
            let s = Seq::new(n as nat, |k: int| (c + k) as u32);
            &&& forall|k1: int, k2: int| 0 <= k1 < k2 < n ==> s[k1] < s[k2]
            &&& forall|k: int| 0 <= k < n ==> c <= #[trigger] s[k] < c + n
            &&& forall|v: u32| c <= v < c + n ==> #[trigger] hits(s, v)
        }),
{
    let s = Seq::new(n as nat, |k: int| (c + k) as u32);
    assert forall|v: u32| c <= v < c + n implies #[trigger] hits(s, v) by {
        let k: int = v - c;
        assert(s[k] == v);
    }
}

} // verus!
