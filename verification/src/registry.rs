//! A registry of timers by name, in which no name occurs twice.
use vstd::prelude::*;

verus! {

/// Timers keyed by their names. Each name occurs at most once.
pub struct TimerRegistry<T> {
    entries: Vec<(String, T)>,
}

impl<T> TimerRegistry<T> {
    /// No two entries carry the same name.
    #[verifier::type_invariant]
    closed spec fn names_unique(self) -> bool {
        forall|i: int, j: int|
            0 <= i < self.entries.len() && 0 <= j < self.entries.len() && i != j
                ==> #[trigger] self.entries@[i].0@ != #[trigger] self.entries@[j].0@
    }

    /// Whether some entry carries the name `name`.
    closed spec fn has_name(self, name: Seq<char>) -> bool {
        exists|i: int| 0 <= i < self.entries.len() && #[trigger] self.entries@[i].0@ == name
    }

    /// The position of the entry that carries `name`.
    closed spec fn position(self, name: Seq<char>) -> int {
        choose|i: int| 0 <= i < self.entries.len() && #[trigger] self.entries@[i].0@ == name
    }

    /// The entry at `i` is the one that carries its name.
    proof fn lemma_position(self, i: int)
        requires
            self.names_unique(),
            0 <= i < self.entries.len(),
        ensures
            self.has_name(self.entries@[i].0@),
            self.position(self.entries@[i].0@) == i,
    {
        let name = self.entries@[i].0@;
        assert(self.entries@[i].0@ == name);
        let p = self.position(name);
        assert(0 <= p < self.entries.len() && self.entries@[p].0@ == name);
    }
}

impl<T> View for TimerRegistry<T> {
    type V = Map<Seq<char>, T>;

    /// Each registered name, mapped to its timer.
    closed spec fn view(&self) -> Map<Seq<char>, T> {
        Map::new(
            |name: Seq<char>| self.has_name(name),
            |name: Seq<char>| self.entries@[self.position(name)].1,
        )
    }
}

impl<T> TimerRegistry<T> {
    /// An empty registry.
    pub fn new() -> (registry: Self)
        ensures
            registry@ == Map::<Seq<char>, T>::empty(),
    {
        let registry = TimerRegistry { entries: Vec::new() };
        assert(registry@ =~= Map::<Seq<char>, T>::empty());
        registry
    }

    /// The position of the entry named `name`, if there is one.
    fn find(&self, name: &String) -> (found: Option<usize>)
        ensures
            match found {
                Some(i) => i < self.entries.len() && self.entries@[i as int].0@ == name@,
                None => !self.has_name(name@),
            },
    {
        let mut i: usize = 0;
        while i < self.entries.len()
            invariant
                i <= self.entries.len(),
                forall|k: int| 0 <= k < i ==> #[trigger] self.entries@[k].0@ != name@,
            decreases self.entries.len() - i,
        {
            if self.entries[i].0 == *name {
                return Some(i);
            }
            i = i + 1;
        }
        None
    }

    /// Whether a timer named `name` is registered.
    pub fn contains(&self, name: &String) -> (present: bool)
        ensures
            present == self@.contains_key(name@),
    {
        self.find(name).is_some()
    }

    /// The timer registered under `name`, if any.
    pub fn get(&self, name: &String) -> (timer: Option<&T>)
        ensures
            match timer {
                Some(t) => self@.contains_key(name@) && *t == self@[name@],
                None => !self@.contains_key(name@),
            },
    {
        proof {
            use_type_invariant(self);
        }
        match self.find(name) {
            Some(i) => {
                proof {
                    self.lemma_position(i as int);
                }
                Some(&self.entries[i].1)
            },
            None => None,
        }
    }

    /// Registers `timer` under a name that is not yet registered.
    pub fn insert_new(&mut self, name: String, timer: T)
        requires
            !old(self)@.contains_key(name@),
        ensures
            final(self)@ == old(self)@.insert(name@, timer),
    {
        proof {
            use_type_invariant(&*self);
        }
        let ghost before = *self;
        let ghost key = name@;
        let mut entries = Vec::new();
        std::mem::swap(&mut entries, &mut self.entries);
        entries.push((name, timer));
        let ghost n = entries.len() - 1;
        assert forall|i: int, j: int|
            0 <= i < entries.len() && 0 <= j < entries.len() && i != j
                implies #[trigger] entries@[i].0@ != #[trigger] entries@[j].0@ by {
            if i == n {
                if entries@[j].0@ == key {
                    assert(before.entries@[j].0@ == key);
                }
            } else if j == n {
                if entries@[i].0@ == key {
                    assert(before.entries@[i].0@ == key);
                }
            } else {
                assert(before.entries@[i] == entries@[i]);
                assert(before.entries@[j] == entries@[j]);
            }
        }
        self.entries = entries;
        proof {
            let after = *self;
            assert(after.entries@[n].0@ == key);
            after.lemma_position(n);
            assert forall|k: Seq<char>| #[trigger] after.has_name(k) == (before.has_name(k) || k == key) by {
                if after.has_name(k) {
                    let p = after.position(k);
                    if p < n {
                        assert(before.entries@[p] == after.entries@[p]);
                    }
                }
                if before.has_name(k) {
                    let p = before.position(k);
                    assert(after.entries@[p] == before.entries@[p]);
                }
            }
            assert forall|k: Seq<char>| before.has_name(k) implies #[trigger] after.position(k) == before.position(k) by {
                let p = before.position(k);
                assert(after.entries@[p] == before.entries@[p]);
                after.lemma_position(p);
            }
            assert(after@ =~= before@.insert(key, timer));
        }
    }

    /// Unregisters the timer named `name`, handing it back if there was one.
    pub fn remove(&mut self, name: &String) -> (removed: Option<T>)
        ensures
            final(self)@ == old(self)@.remove(name@),
            removed == (if old(self)@.contains_key(name@) {
                Some(old(self)@[name@])
            } else {
                None
            }),
    {
        proof {
            use_type_invariant(&*self);
        }
        let ghost before = *self;
        match self.find(name) {
            None => {
                proof {
                    assert(before@ =~= before@.remove(name@));
                }
                None
            },
            Some(i) => {
                proof {
                    before.lemma_position(i as int);
                }
                let mut entries = Vec::new();
                std::mem::swap(&mut entries, &mut self.entries);
                let (_, timer) = entries.remove(i);
                let ghost key = name@;
                assert forall|a: int, b: int|
                    0 <= a < entries.len() && 0 <= b < entries.len() && a != b
                        implies #[trigger] entries@[a].0@ != #[trigger] entries@[b].0@ by {
                    let a0 = if a < i { a } else { a + 1 };
                    let b0 = if b < i { b } else { b + 1 };
                    assert(entries@[a] == before.entries@[a0]);
                    assert(entries@[b] == before.entries@[b0]);
                }
                self.entries = entries;
                proof {
                    let after = *self;
                    assert forall|k: Seq<char>|
                        #[trigger] after.has_name(k) == (before.has_name(k) && k != key) by {
                        if after.has_name(k) {
                            let p = after.position(k);
                            let p0 = if p < i { p } else { p + 1 };
                            assert(after.entries@[p] == before.entries@[p0]);
                            before.lemma_position(p0);
                        }
                        if before.has_name(k) && k != key {
                            let p0 = before.position(k);
                            assert(p0 != i);
                            let p = if p0 < i { p0 } else { p0 - 1 };
                            assert(after.entries@[p] == before.entries@[p0]);
                        }
                    }
                    assert forall|k: Seq<char>| #[trigger] after.has_name(k) implies
                        after.entries@[after.position(k)].1 == before.entries@[before.position(k)].1 by {
                        let p = after.position(k);
                        let p0 = if p < i { p } else { p + 1 };
                        assert(after.entries@[p] == before.entries@[p0]);
                        before.lemma_position(p0);
                    }
                    assert(after@ =~= before@.remove(key));
                }
                Some(timer)
            },
        }
    }
}

/// Unregistering a name that was registered fresh gives back the registry as
/// it was before.
pub proof fn law_remove_undoes_insert<T>(registry: Map<Seq<char>, T>, name: Seq<char>, timer: T)
    requires
        !registry.contains_key(name),
    ensures
        registry.insert(name, timer).remove(name) == registry,
{
    assert(registry.insert(name, timer).remove(name) =~= registry);
}

} // verus!
