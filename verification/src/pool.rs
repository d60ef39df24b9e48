//! A small keyed store for shared resources, looked up by name: textures,
//! shader programs.  Keys are kept unique, so each name maps to exactly one
//! element.

use vstd::prelude::*;

verus! {

pub struct Pool<T> {
    keys: Vec<String>,
    elements: Vec<T>,
}

impl<T> Pool<T> {
    /// Internal shape: one element per key, no name twice.
    pub closed spec fn wf(&self) -> bool {
        &&& self.keys@.len() == self.elements@.len()
        &&& forall|i: int, j: int|
            0 <= i < j < self.keys@.len() ==> (#[trigger] self.keys@[i])@ != (
            #[trigger] self.keys@[j])@
    }

    pub closed spec fn has_key(&self, k: Seq<char>) -> bool {
        exists|i: int| 0 <= i < self.keys@.len() && (#[trigger] self.keys@[i])@ == k
    }

    pub closed spec fn idx_of(&self, k: Seq<char>) -> int {
        choose|i: int| 0 <= i < self.keys@.len() && (#[trigger] self.keys@[i])@ == k
    }

    /// The element stored under a present key.
    pub closed spec fn val_at(&self, k: Seq<char>) -> T {
        self.elements@[self.idx_of(k)]
    }

    pub fn new() -> (r: Pool<T>)
        ensures
            r.wf(),
            forall|k: Seq<char>| !r.has_key(k),
    {
        Pool { keys: Vec::new(), elements: Vec::new() }
    }

    /// Store an element under a name, replacing whatever held the name
    /// before.
    pub fn insert(&mut self, key: &'static str, value: T)
        requires
            old(self).wf(),
        ensures
            final(self).wf(),
            final(self).has_key(key@),
            final(self).val_at(key@) == value,
            forall|k2: Seq<char>|
                k2 != key@ ==> final(self).has_key(k2) == old(self).has_key(k2),
            forall|k2: Seq<char>|
                k2 != key@ && old(self).has_key(k2) ==> final(self).val_at(k2) == old(
                    self,
                ).val_at(k2),
    {
        let ks = String::from_str(key);
        let n = self.keys.len();
        let mut i: usize = 0;
        while i < n
            invariant
                old(self).wf(),
                n == self.keys@.len(),
                i <= n,
                self.keys == old(self).keys,
                self.elements == old(self).elements,
                ks@ == key@,
                forall|j: int| 0 <= j < i ==> (#[trigger] self.keys@[j])@ != key@,
            decreases n - i,
        {
            if self.keys[i] == ks {
                self.elements[i] = value;
                proof {
                    lemma_unique_idx(self, key@, i as int);
                    assert forall|k2: Seq<char>|
                        k2 != key@ && old(self).has_key(k2) implies self.val_at(k2) == old(
                        self,
                    ).val_at(k2) by {
                        let j = old(self).idx_of(k2);
                        assert(0 <= j < old(self).keys@.len() && old(self).keys@[j]@ == k2);
                        assert(j != i);
                        lemma_unique_idx(self, k2, j);
                    }
                }
                return ;
            }
            i += 1;
        }
        self.keys.push(ks);
        self.elements.push(value);
        proof {
            lemma_unique_idx(self, key@, self.keys@.len() - 1);
            assert forall|k2: Seq<char>|
                k2 != key@ && old(self).has_key(k2) implies self.has_key(k2) && self.val_at(k2) == old(self).val_at(k2) by {
                let j = old(self).idx_of(k2);
                assert(0 <= j < old(self).keys@.len() && old(self).keys@[j]@ == k2);
                lemma_unique_idx(self, k2, j);
            }
            assert forall|k2: Seq<char>|
                k2 != key@ && self.has_key(k2) implies old(self).has_key(k2) by {
                let j = self.idx_of(k2);
                assert(0 <= j < self.keys@.len() && self.keys@[j]@ == k2);
                assert(j < old(self).keys@.len());
            }
        }
    }

    /// Drop the element stored under a name, if any.
    pub fn remove(&mut self, key: &'static str)
        requires
            old(self).wf(),
        ensures
            final(self).wf(),
            !final(self).has_key(key@),
            forall|k2: Seq<char>|
                k2 != key@ ==> final(self).has_key(k2) == old(self).has_key(k2),
            forall|k2: Seq<char>|
                k2 != key@ && old(self).has_key(k2) ==> final(self).val_at(k2) == old(
                    self,
                ).val_at(k2),
    {
        let ks = String::from_str(key);
        let n = self.keys.len();
        let mut i: usize = 0;
        while i < n
            invariant
                old(self).wf(),
                n == self.keys@.len(),
                i <= n,
                self.keys == old(self).keys,
                self.elements == old(self).elements,
                ks@ == key@,
                forall|j: int| 0 <= j < i ==> (#[trigger] self.keys@[j])@ != key@,
            decreases n - i,
        {
            if self.keys[i] == ks {
                self.keys.remove(i);
                self.elements.remove(i);
                proof {
                    assert forall|a: int, b: int|
                        0 <= a < b < self.keys@.len() implies (#[trigger] self.keys@[a])@ != (
                        #[trigger] self.keys@[b])@ by {
                        let a0 = if a < i { a } else { a + 1 };
                        let b0 = if b < i { b } else { b + 1 };
                        assert(self.keys@[a]@ == old(self).keys@[a0]@);
                        assert(self.keys@[b]@ == old(self).keys@[b0]@);
                    }
                    assert(self.wf());
                    assert forall|k2: Seq<char>| k2 != key@ implies self.has_key(k2) == old(
                        self,
                    ).has_key(k2) by {
                        if old(self).has_key(k2) {
                            let j = old(self).idx_of(k2);
                            assert(0 <= j < old(self).keys@.len() && old(self).keys@[j]@ == k2);
                            assert(j != i);
                            if j < i {
                                assert(self.keys@[j]@ == k2);
                            } else {
                                assert(self.keys@[j - 1]@ == k2);
                            }
                        }
                        if self.has_key(k2) {
                            let j = self.idx_of(k2);
                            assert(0 <= j < self.keys@.len() && self.keys@[j]@ == k2);
                            if j < i {
                                assert(old(self).keys@[j]@ == k2);
                            } else {
                                assert(old(self).keys@[j + 1]@ == k2);
                            }
                        }
                    }
                    assert forall|k2: Seq<char>|
                        k2 != key@ && old(self).has_key(k2) implies self.val_at(k2) == old(
                        self,
                    ).val_at(k2) by {
                        let j = old(self).idx_of(k2);
                        assert(0 <= j < old(self).keys@.len() && old(self).keys@[j]@ == k2);
                        assert(j != i);
                        if j < i {
                            lemma_unique_idx(self, k2, j);
                        } else {
                            lemma_unique_idx(self, k2, j - 1);
                        }
                    }
                    assert forall|k2: Seq<char>| self.has_key(k2) implies k2 != key@ by {
                        let j = self.idx_of(k2);
                        assert(0 <= j < self.keys@.len() && self.keys@[j]@ == k2);
                        if j < i {
                            assert(old(self).keys@[j]@ == k2);
                        } else {
                            assert(old(self).keys@[j + 1]@ == k2);
                        }
                    }
                }
                return ;
            }
            i += 1;
        }
    }

    /// Borrow the element stored under a name; the name must be present.
    pub fn get_element(&mut self, key: &'static str) -> (r: &T)
        requires
            old(self).wf(),
            old(self).has_key(key@),
        ensures
            *final(self) == *old(self),
            *r == old(self).val_at(key@),
    {
        let ks = String::from_str(key);
        let n = self.keys.len();
        let mut i: usize = 0;
        while i < n
            invariant
                old(self).wf(),
                n == self.keys@.len(),
                i <= n,
                self.keys == old(self).keys,
                self.elements == old(self).elements,
                ks@ == key@,
                self.wf(),
                self.has_key(key@),
                forall|j: int| 0 <= j < i ==> (#[trigger] self.keys@[j])@ != key@,
            decreases n - i,
        {
            if self.keys[i] == ks {
                proof {
                    lemma_unique_idx(self, key@, i as int);
                }
                return &self.elements[i];
            }
            i += 1;
        }
        proof {
            let j = self.idx_of(key@);
            assert(0 <= j < self.keys@.len() && self.keys@[j]@ == key@);
            assert(false);
        }
        &self.elements[0]
    }
}

/// Under unique keys, the witness index for a present key is the only one.
proof fn lemma_unique_idx<T>(p: &Pool<T>, k: Seq<char>, i: int)
    requires
        p.wf(),
        0 <= i < p.keys@.len(),
        p.keys@[i]@ == k,
    ensures
        p.has_key(k),
        p.idx_of(k) == i,
{
    assert(p.has_key(k));
    let j = p.idx_of(k);
    assert(0 <= j < p.keys@.len() && p.keys@[j]@ == k);
    if i < j {
        assert(p.keys@[i]@ != p.keys@[j]@);
    } else if j < i {
        assert(p.keys@[j]@ != p.keys@[i]@);
    }
}

} // verus!
