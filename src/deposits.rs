use vstd::prelude::*;

use crate::types::{copy_deposit, DepositInfo};

verus! {

/// The deposit records of a ledger, keyed by commitment.
///
/// Each commitment appears at most once; to callers the store is simply a map
/// from the commitment's characters to its record.
pub struct Deposits {
    entries: Vec<(String, DepositInfo)>,
    contents: Ghost<Map<Seq<char>, DepositInfo>>,
}

impl View for Deposits {
    type V = Map<Seq<char>, DepositInfo>;

    closed spec fn view(&self) -> Map<Seq<char>, DepositInfo> {
        self.contents@
    }
}

/// `entries` holds each key of `contents` once, with its value, and no other key.
spec fn keyed_by(entries: Seq<(String, DepositInfo)>, contents: Map<Seq<char>, DepositInfo>) -> bool {
    &&& forall|i: int, j: int| 0 <= i < j < entries.len() ==> entries[i].0@ != entries[j].0@
    &&& forall|i: int|
        0 <= i < entries.len() ==> {
            &&& #[trigger] contents.dom().contains(entries[i].0@)
            &&& contents[entries[i].0@] == entries[i].1
        }
    &&& forall|k: Seq<char>|
        #[trigger] contents.dom().contains(k) ==> exists|i: int| 0 <= i < entries.len() && entries[i].0@ == k
}

impl Deposits {
    #[verifier::type_invariant]
    spec fn entries_match(self) -> bool {
        keyed_by(self.entries@, self.contents@)
    }

    /// The record stored under `key`, if any.
    pub open spec fn lookup(&self, key: Seq<char>) -> Option<DepositInfo> {
        if self@.dom().contains(key) {
            Some(self@[key])
        } else {
            None
        }
    }

    /// An empty store.
    pub fn new() -> (r: Deposits)
        ensures
            r@ == Map::<Seq<char>, DepositInfo>::empty(),
    {
        Deposits { entries: Vec::new(), contents: Ghost(Map::empty()) }
    }

    /// The position of `key` among the entries.
    fn position(&self, key: &String) -> (r: Option<usize>)
        ensures
            match r {
                Some(i) => i < self.entries@.len() && self.entries@[i as int].0@ == key@,
                None => !self@.dom().contains(key@),
            },
    {
        proof {
            use_type_invariant(self);
        }
        let mut i: usize = 0;
        while i < self.entries.len()
            invariant
                i <= self.entries@.len(),
                forall|j: int| 0 <= j < i ==> self.entries@[j].0@ != key@,
            decreases self.entries@.len() - i,
        {
            if self.entries[i].0 == *key {
                return Some(i);
            }
            i = i + 1;
        }
        proof {
            if self@.dom().contains(key@) {
                let j = choose|j: int| 0 <= j < self.entries@.len() && self.entries@[j].0@ == key@;
                assert(self.entries@[j].0@ != key@);
            }
        }
        None
    }
    /// The record stored under `key`, if any, as a copy.
    pub fn get(&self, key: &String) -> (r: Option<DepositInfo>)
        ensures
            r == self.lookup(key@),
    {
        proof {
            use_type_invariant(self);
        }
        match self.position(key) {
            Some(i) => Some(copy_deposit(&self.entries[i].1)),
            None => None,
        }
    }

    /// Stores `value` under `key`, replacing and returning any earlier record.
    pub fn insert(&mut self, key: &String, value: &DepositInfo) -> (r: Option<DepositInfo>)
        ensures
            final(self)@ == old(self)@.insert(key@, *value),
            r == old(self).lookup(key@),
    {
        proof {
            use_type_invariant(&*self);
        }
        let pos = self.position(key);
        let mut taken = Deposits::new();
        std::mem::swap(self, &mut taken);
        proof {
            use_type_invariant(&taken);
        }
        let Deposits { mut entries, contents } = taken;
        let ghost before = entries@;
        let ghost new_map = contents@.insert(key@, *value);
        let prev = match pos {
            Some(i) => {
                let earlier = copy_deposit(&entries[i].1);
                entries.set(i, (key.clone(), copy_deposit(value)));
                proof {
                    assert forall|a: int| 0 <= a < entries@.len() implies #[trigger] entries@[a].0@
                        == before[a].0@ by {}
                    assert forall|a: int| 0 <= a < entries@.len() implies {
                        &&& #[trigger] new_map.dom().contains(entries@[a].0@)
                        &&& new_map[entries@[a].0@] == entries@[a].1
                    } by {
                        assert(contents@.dom().contains(before[a].0@));
                    }
                    assert forall|k: Seq<char>| #[trigger] new_map.dom().contains(k) implies exists|j: int|
                        0 <= j < entries@.len() && entries@[j].0@ == k by {
                        if k != key@ {
                            let j = choose|j: int| 0 <= j < before.len() && before[j].0@ == k;
                            assert(entries@[j].0@ == k);
                        } else {
                            assert(entries@[i as int].0@ == k);
                        }
                    }
                }
                Some(earlier)
            },
            None => {
                entries.push((key.clone(), copy_deposit(value)));
                proof {
                    assert forall|j: int| 0 <= j < before.len() implies before[j].0@ != key@ by {
                        assert(contents@.dom().contains(before[j].0@));
                    }
                    assert forall|a: int| 0 <= a < entries@.len() implies {
                        &&& #[trigger] new_map.dom().contains(entries@[a].0@)
                        &&& new_map[entries@[a].0@] == entries@[a].1
                    } by {
                        if a < before.len() {
                            assert(contents@.dom().contains(before[a].0@));
                        }
                    }
                    assert forall|k: Seq<char>| #[trigger] new_map.dom().contains(k) implies exists|j: int|
                        0 <= j < entries@.len() && entries@[j].0@ == k by {
                        if k != key@ {
                            let j = choose|j: int| 0 <= j < before.len() && before[j].0@ == k;
                            assert(entries@[j].0@ == k);
                        } else {
                            assert(entries@[before.len() as int].0@ == k);
                        }
                    }
                }
                None
            },
        };
        *self = Deposits { entries, contents: Ghost(new_map) };
        prev
    }

    /// Removes the record stored under `key`, and returns it.
    pub fn remove(&mut self, key: &String) -> (r: Option<DepositInfo>)
        ensures
            final(self)@ == old(self)@.remove(key@),
            r == old(self).lookup(key@),
    {
        proof {
            use_type_invariant(&*self);
        }
        let pos = self.position(key);
        let mut taken = Deposits::new();
        std::mem::swap(self, &mut taken);
        proof {
            use_type_invariant(&taken);
        }
        let Deposits { mut entries, contents } = taken;
        let ghost before = entries@;
        let ghost new_map = contents@.remove(key@);
        let prev = match pos {
            Some(i) => {
                let (_, earlier) = entries.remove(i);
                proof {
                    assert forall|a: int| 0 <= a < entries@.len() implies {
                        &&& #[trigger] new_map.dom().contains(entries@[a].0@)
                        &&& new_map[entries@[a].0@] == entries@[a].1
                    } by {
                        let b = if a < i { a } else { a + 1 };
                        assert(entries@[a] == before[b]);
                        assert(contents@.dom().contains(before[b].0@));
                    }
                    assert forall|k: Seq<char>| #[trigger] new_map.dom().contains(k) implies exists|j: int|
                        0 <= j < entries@.len() && entries@[j].0@ == k by {
                        let j = choose|j: int| 0 <= j < before.len() && before[j].0@ == k;
                        if j < i {
                            assert(entries@[j].0@ == k);
                        } else {
                            assert(entries@[j - 1].0@ == k);
                        }
                    }
                }
                Some(earlier)
            },
            None => {
                proof {
                    assert(new_map =~= contents@);
                }
                None
            },
        };
        *self = Deposits { entries, contents: Ghost(new_map) };
        prev
    }
}

} // verus!
