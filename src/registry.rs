use vstd::prelude::*;

verus! {

/// What a lookup in the registry found for an identity. Either way the
/// registry's id counter has moved on by one.
#[derive(Debug, Clone, Copy, PartialEq, Eq, Structural)]
pub enum Lookup {
    /// A live broker is registered under the identity: its numeric identity.
    /// One more owning reference to it is now counted.
    Live(usize),
    /// No live broker: the numeric identity a new one should take.
    Vacant(usize),
}

/// The table from canonical database identity to the broker registered under
/// it. It holds each broker's numeric identity and how many owning references
/// to it are alive, never the broker itself; an entry leaves the table when
/// its last owning reference is released.
pub struct Registry {
    names: Vec<String>,
    ids: Vec<usize>,
    refs: Vec<usize>,
    next_id: usize,
    live: Ghost<Map<Seq<char>, (usize, nat)>>,
}

impl Registry {
    /// Each live identity, with its broker's numeric identity and its count of
    /// owning references.
    pub closed spec fn live(&self) -> Map<Seq<char>, (usize, nat)> {
        self.live@
    }

    /// The numeric identity the next lookup hands out.
    pub closed spec fn next_id(&self) -> nat {
        self.next_id as nat
    }

    pub closed spec fn wf(&self) -> bool {
        &&& self.ids@.len() == self.names@.len()
        &&& self.refs@.len() == self.names@.len()
        &&& forall|i: int|
            0 <= i < self.names@.len() ==> {
                &&& #[trigger] self.live@.contains_key(self.names@[i]@)
                &&& self.live@[self.names@[i]@] == (self.ids@[i], self.refs@[i] as nat)
            }
        &&& forall|n: Seq<char>| #[trigger]
            self.live@.contains_key(n) ==> exists|i: int|
                0 <= i < self.names@.len() && #[trigger] self.names@[i]@ == n
        &&& forall|i: int, j: int|
            0 <= i < self.names@.len() && 0 <= j < self.names@.len() && i != j
                ==> #[trigger] self.names@[i]@ != #[trigger] self.names@[j]@
        &&& forall|n: Seq<char>| #[trigger]
            self.live@.contains_key(n) ==> self.live@[n].1 >= 1 && (self.live@[n].0 as nat)
                < self.next_id
        &&& forall|n1: Seq<char>, n2: Seq<char>|
            #[trigger] self.live@.contains_key(n1) && #[trigger] self.live@.contains_key(n2) && n1
                != n2 ==> self.live@[n1].0 != self.live@[n2].0
    }

    /// Whether a live broker holds the numeric identity `id`.
    pub open spec fn holds(&self, id: usize) -> bool {
        exists|n: Seq<char>| #[trigger] self.live().contains_key(n) && self.live()[n].0 == id
    }

    /// Whether a lookup of `name` can count one more reference and hand out one
    /// more identity without running out of machine integers.
    pub open spec fn can_resolve(&self, name: Seq<char>) -> bool {
        &&& self.next_id() < usize::MAX
        &&& self.live().contains_key(name) ==> self.live()[name].1 < usize::MAX
    }

    /// Releasing one owning reference to `name` on `r0` gave `removed` and
    /// left `r1`: the entry leaves with its last reference, else its count
    /// drops by one.
    pub open spec fn release_post(r0: Registry, name: Seq<char>, removed: bool, r1: Registry) -> bool {
        &&& r1.wf()
        &&& r1.next_id() == r0.next_id()
        &&& removed == (r0.live()[name].1 == 1)
        &&& removed ==> r1.live() == r0.live().remove(name)
        &&& !removed ==> r1.live() == r0.live().insert(
            name,
            (r0.live()[name].0, (r0.live()[name].1 - 1) as nat),
        )
    }

    /// Every registered broker's identity was handed out before the counter's
    /// current value.
    pub proof fn lemma_live_ids_below_next(&self)
        requires
            self.wf(),
        ensures
            forall|n: Seq<char>| #[trigger]
                self.live().contains_key(n) ==> (self.live()[n].0 as nat) < self.next_id(),
    {
    }

    /// Two live brokers under different identities have different numeric
    /// identities.
    pub proof fn lemma_live_ids_distinct(&self, n1: Seq<char>, n2: Seq<char>)
        requires
            self.wf(),
            self.live().contains_key(n1),
            self.live().contains_key(n2),
            n1 != n2,
        ensures
            self.live()[n1].0 != self.live()[n2].0,
    {
    }

    /// The counter is a machine integer.
    pub proof fn lemma_next_id_fits(&self)
        ensures
            self.next_id() <= usize::MAX,
    {
    }

    pub fn new() -> (r: Registry)
        ensures
            r.wf(),
            r.live() == Map::<Seq<char>, (usize, nat)>::empty(),
            r.next_id() == 0,
    {
        Registry {
            names: Vec::new(),
            ids: Vec::new(),
            refs: Vec::new(),
            next_id: 0,
            live: Ghost(Map::empty()),
        }
    }

    fn find(&self, name: &String) -> (r: Option<usize>)
        requires
            self.wf(),
        ensures
            r is Some ==> r->Some_0 < self.names@.len() && self.names@[r->Some_0 as int]@
                == name@,
            r is None ==> !self.live().contains_key(name@),
    {
        let mut i: usize = 0;
        while i < self.names.len()
            invariant
                self.wf(),
                i <= self.names@.len(),
                forall|k: int| 0 <= k < i ==> self.names@[k]@ != name@,
            decreases self.names@.len() - i,
        {
            if self.names[i] == *name {
                return Some(i);
            }
            i = i + 1;
        }
        None
    }

    /// Whether a live broker is registered under `name`.
    pub fn is_live(&self, name: &String) -> (r: bool)
        requires
            self.wf(),
        ensures
            r == self.live().contains_key(name@),
    {
        match self.find(name) {
            Some(i) => true,
            None => false,
        }
    }

    /// Whether a lookup of `name` is within the machine's integer limits.
    pub fn has_room(&self, name: &String) -> (r: bool)
        requires
            self.wf(),
        ensures
            r == self.can_resolve(name@),
    {
        if self.next_id == usize::MAX {
            return false;
        }
        match self.find(name) {
            Some(i) => {
                assert(self.live@.contains_key(self.names@[i as int]@));
                self.refs[i] < usize::MAX
            },
            None => true,
        }
    }

    /// Looks `name` up, counting one more owning reference when a live broker
    /// is registered under it, and moves the id counter on by one.
    pub fn lookup(&mut self, name: &String) -> (r: Lookup)
        requires
            old(self).wf(),
            old(self).can_resolve(name@),
        ensures
            final(self).wf(),
            final(self).next_id() == old(self).next_id() + 1,
            old(self).live().contains_key(name@) ==> {
                &&& r == Lookup::Live(old(self).live()[name@].0)
                &&& final(self).live() == old(self).live().insert(
                    name@,
                    (old(self).live()[name@].0, old(self).live()[name@].1 + 1),
                )
            },
            !old(self).live().contains_key(name@) ==> {
                &&& r == Lookup::Vacant(old(self).next_id() as usize)
                &&& final(self).live() == old(self).live()
            },
    {
        let id = self.next_id;
        self.next_id = self.next_id + 1;
        match self.find(name) {
            Some(i) => {
                let ghost old_live = self.live@;
                assert(self.live@.contains_key(self.names@[i as int]@));
                let count = self.refs[i] + 1;
                self.refs.set(i, count);
                let ghost entry = (self.ids@[i as int], count as nat);
                self.live = Ghost(self.live@.insert(name@, entry));
                assert forall|k: int| 0 <= k < self.names@.len() implies {
                    &&& #[trigger] self.live@.contains_key(self.names@[k]@)
                    &&& self.live@[self.names@[k]@] == (self.ids@[k], self.refs@[k] as nat)
                } by {
                    if k != i {
                        assert(self.names@[k]@ != self.names@[i as int]@);
                        assert(old_live.contains_key(self.names@[k]@));
                    }
                }
                assert forall|n: Seq<char>| #[trigger]
                    self.live@.contains_key(n) implies exists|k: int|
                    0 <= k < self.names@.len() && #[trigger] self.names@[k]@ == n by {
                    if n == name@ {
                        assert(self.names@[i as int]@ == n);
                    } else {
                        assert(old_live.contains_key(n));
                        let k = choose|k: int|
                            0 <= k < self.names@.len() && #[trigger] self.names@[k]@ == n;
                        assert(self.names@[k]@ == n);
                    }
                }
                Lookup::Live(self.ids[i])
            },
            None => Lookup::Vacant(id),
        }
    }

    /// Whether a live broker holds the numeric identity `id`.
    pub fn holds_id(&self, id: usize) -> (r: bool)
        requires
            self.wf(),
        ensures
            r == self.holds(id),
    {
        let mut i: usize = 0;
        while i < self.ids.len()
            invariant
                self.wf(),
                i <= self.ids@.len(),
                forall|k: int| 0 <= k < i ==> self.ids@[k] != id,
            decreases self.ids@.len() - i,
        {
            if self.ids[i] == id {
                assert(self.live@.contains_key(self.names@[i as int]@));
                assert(self.live()[self.names@[i as int]@].0 == id);
                return true;
            }
            i = i + 1;
        }
        assert forall|n: Seq<char>| #[trigger]
            self.live().contains_key(n) implies self.live()[n].0 != id by {
            let k = choose|k: int| 0 <= k < self.names@.len() && #[trigger] self.names@[k]@ == n;
            assert(self.live@.contains_key(self.names@[k]@));
        }
        false
    }

    /// Registers a newly built broker under `name` with one owning reference.
    pub fn register(&mut self, name: String, id: usize)
        requires
            old(self).wf(),
            !old(self).live().contains_key(name@),
            (id as nat) < old(self).next_id(),
            !old(self).holds(id),
        ensures
            final(self).wf(),
            final(self).next_id() == old(self).next_id(),
            final(self).live() == old(self).live().insert(name@, (id, 1nat)),
    {
        let ghost old_names = self.names@;
        let ghost key = name@;
        self.names.push(name);
        self.ids.push(id);
        self.refs.push(1);
        self.live = Ghost(self.live@.insert(key, (id, 1nat)));
        assert forall|n: Seq<char>| #[trigger]
            self.live@.contains_key(n) implies exists|k: int|
            0 <= k < self.names@.len() && #[trigger] self.names@[k]@ == n by {
            if n == key {
                assert(self.names@[old_names.len() as int]@ == n);
            } else {
                let k = choose|k: int| 0 <= k < old_names.len() && #[trigger] old_names[k]@ == n;
                assert(self.names@[k]@ == n);
            }
        }
    }

    /// Releases one owning reference to the broker registered under `name`;
    /// the entry leaves the table with its last reference. Returns whether it
    /// left.
    pub fn release(&mut self, name: &String) -> (removed: bool)
        requires
            old(self).wf(),
            old(self).live().contains_key(name@),
        ensures
            Self::release_post(*old(self), name@, removed, *final(self)),
    {
        let i = match self.find(name) {
            Some(i) => i,
            None => {
                return false;
            },
        };
        let ghost old_names = self.names@;
        let ghost old_ids = self.ids@;
        let ghost old_refs = self.refs@;
        let ghost old_live = self.live@;
        assert(self.live@.contains_key(self.names@[i as int]@));
        if self.refs[i] == 1 {
            self.names.remove(i);
            self.ids.remove(i);
            self.refs.remove(i);
            self.live = Ghost(self.live@.remove(name@));
            assert forall|k: int| 0 <= k < self.names@.len() implies {
                &&& #[trigger] self.live@.contains_key(self.names@[k]@)
                &&& self.live@[self.names@[k]@] == (self.ids@[k], self.refs@[k] as nat)
            } by {
                let k0 = if k < i { k } else { k + 1 };
                assert(self.names@[k] == old_names[k0]);
                assert(self.ids@[k] == old_ids[k0]);
                assert(self.refs@[k] == old_refs[k0]);
                assert(old_names[k0]@ != old_names[i as int]@);
                assert(old_live.contains_key(old_names[k0]@));
            }
            assert forall|n: Seq<char>| #[trigger]
                self.live@.contains_key(n) implies exists|k: int|
                0 <= k < self.names@.len() && #[trigger] self.names@[k]@ == n by {
                assert(old_live.contains_key(n));
                let k = choose|k: int| 0 <= k < old_names.len() && #[trigger] old_names[k]@ == n;
                if k < i {
                    assert(self.names@[k]@ == n);
                } else {
                    assert(k != i);
                    assert(self.names@[k - 1]@ == n);
                }
            }
            assert forall|a: int, b: int|
                0 <= a < self.names@.len() && 0 <= b < self.names@.len() && a != b
                    implies #[trigger] self.names@[a]@ != #[trigger] self.names@[b]@ by {
                let a0 = if a < i { a } else { a + 1 };
                let b0 = if b < i { b } else { b + 1 };
                assert(self.names@[a] == old_names[a0]);
                assert(self.names@[b] == old_names[b0]);
            }
            true
        } else {
            let count = self.refs[i] - 1;
            self.refs.set(i, count);
            self.live = Ghost(self.live@.insert(name@, (self.ids@[i as int], count as nat)));
            assert forall|k: int| 0 <= k < self.names@.len() implies {
                &&& #[trigger] self.live@.contains_key(self.names@[k]@)
                &&& self.live@[self.names@[k]@] == (self.ids@[k], self.refs@[k] as nat)
            } by {
                if k != i {
                    assert(old_names[k]@ != old_names[i as int]@);
                    assert(old_live.contains_key(old_names[k]@));
                }
            }
            assert forall|n: Seq<char>| #[trigger]
                self.live@.contains_key(n) implies exists|k: int|
                0 <= k < self.names@.len() && #[trigger] self.names@[k]@ == n by {
                if n == name@ {
                    assert(self.names@[i as int]@ == n);
                } else {
                    assert(old_live.contains_key(n));
                }
            }
            false
        }
    }
}

} // verus!
