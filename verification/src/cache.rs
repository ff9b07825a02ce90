use vstd::assert_sets_equal;
use vstd::prelude::*;

verus! {

/// The deduplication cache: remembers every key that was ever recorded.
/// Unbounded by design — entries are never removed or expired. Abstractly it
/// is the set of key strings seen so far (`self@`); the stored marker value
/// is never read back, so it does not appear in the view.
///
/// The cache itself does not serialize callers: the owning component must
/// hold exclusive access across a `contains`/`insert` pair for the
/// check-and-insert to be indivisible.
pub struct Cache {
    data: Vec<(String, bool)>,
}

impl Cache {
    /// The set of keys currently recorded.
    pub closed spec fn view(&self) -> Set<Seq<char>> {
        Set::new(
            |k: Seq<char>| exists|i: int| 0 <= i < self.data@.len() && self.data@[i].0@ == k,
        )
    }

    /// An empty cache, as created once at startup.
    pub fn new() -> (c: Cache)
        ensures
            c@ == Set::<Seq<char>>::empty(),
    {
        let c = Cache { data: Vec::new() };
        proof {
            assert(c@ =~= Set::<Seq<char>>::empty());
        }
        c
    }

    /// True iff `key` was previously inserted.
    pub fn contains(&self, key: &str) -> (present: bool)
        ensures
            present == self@.contains(key@),
    {
        let key_string: String = key.to_owned();
        let mut i: usize = 0;
        while i < self.data.len()
            invariant
                0 <= i <= self.data@.len(),
                key_string@ == key@,
                forall|j: int| 0 <= j < i ==> self.data@[j].0@ != key@,
            decreases self.data@.len() - i,
        {
            if self.data[i].0 == key_string {
                return true;
            }
            i = i + 1;
        }
        false
    }

    /// Records `key` as seen. Idempotent with respect to the view: inserting a
    /// key that is already present leaves the set of seen keys unchanged.
    pub fn insert(&mut self, key: String, value: bool)
        ensures
            final(self)@ == old(self)@.insert(key@),
    {
        let ghost k: Seq<char> = key@;
        let ghost old_data: Seq<(String, bool)> = self.data@;
        self.data.push((key, value));
        proof {
            assert_sets_equal!(self@, old(self)@.insert(k), elem => {
                if self@.contains(elem) {
                    let i = choose|i: int|
                        0 <= i < self.data@.len() && self.data@[i].0@ == elem;
                    if i < old_data.len() {
                        assert(old_data[i].0@ == elem);
                        assert(old(self)@.contains(elem));
                    } else {
                        assert(elem == k);
                    }
                }
                if old(self)@.insert(k).contains(elem) {
                    if elem == k {
                        assert(self.data@[old_data.len() as int].0@ == elem);
                    } else {
                        let i = choose|i: int|
                            0 <= i < old_data.len() && old_data[i].0@ == elem;
                        assert(self.data@[i].0@ == elem);
                    }
                }
            });
        }
    }
}

} // verus!
