use vstd::prelude::*;
use crate::keys::KeyCode;

verus! {

/// The set of keys that toggle bindings currently hold down.
pub struct ToggleState {
    held: Vec<KeyCode>,
}

impl View for ToggleState {
    type V = Set<KeyCode>;

    closed spec fn view(&self) -> Set<KeyCode> {
        Set::new(|k: KeyCode| self.held@.contains(k))
    }
}

/// The held set after toggling `k`.
pub open spec fn flipped(held: Set<KeyCode>, k: KeyCode) -> Set<KeyCode> {
    if held.contains(k) {
        held.remove(k)
    } else {
        held.insert(k)
    }
}

impl ToggleState {
    pub closed spec fn wf(&self) -> bool {
        self.held@.no_duplicates()
    }

    /// No key held.
    pub fn new() -> (r: Self)
        ensures
            r.wf(),
            r@ == Set::<KeyCode>::empty(),
    {
        let r = ToggleState { held: Vec::new() };
        proof {
            assert(r@ =~= Set::<KeyCode>::empty());
        }
        r
    }

    fn position(&self, k: KeyCode) -> (r: Option<usize>)
        ensures
            match r {
                Some(i) => i < self.held@.len() && self.held@[i as int] == k,
                None => !self.held@.contains(k),
            },
    {
        let mut i: usize = 0;
        while i < self.held.len()
            invariant
                i <= self.held@.len(),
                forall|j: int| 0 <= j < i ==> self.held@[j] != k,
            decreases self.held@.len() - i,
        {
            if self.held[i] == k {
                return Some(i);
            }
            i += 1;
        }
        None
    }

    /// Whether `k` is held.
    pub fn is_on(&self, k: KeyCode) -> (r: bool)
        ensures
            r == self@.contains(k),
    {
        self.position(k).is_some()
    }

    /// Flips the held state of `k`; returns whether it is now held.
    pub fn toggle(&mut self, k: KeyCode) -> (now_on: bool)
        requires
            old(self).wf(),
        ensures
            final(self).wf(),
            final(self)@ == flipped(old(self)@, k),
            now_on == !old(self)@.contains(k),
    {
        let ghost before = self.held@;
        match self.position(k) {
            Some(i) => {
                self.held.remove(i);
                proof {
                    let after = self.held@;
                    assert forall|a: int, b: int|
                        0 <= a < after.len() && 0 <= b < after.len() && a != b
                        implies after[a] != after[b] by {
                        let a0 = if a < i { a } else { a + 1 };
                        let b0 = if b < i { b } else { b + 1 };
                        assert(after[a] == before[a0]);
                        assert(after[b] == before[b0]);
                    }
                    assert forall|x: KeyCode| after.contains(x) <==> (before.contains(x) && x != k) by {
                        if after.contains(x) {
                            let j = choose|j: int| 0 <= j < after.len() && after[j] == x;
                            let j0 = if j < i { j } else { j + 1 };
                            assert(before[j0] == x);
                        }
                        if before.contains(x) && x != k {
                            let j = choose|j: int| 0 <= j < before.len() && before[j] == x;
                            let j1 = if j < i { j } else { j - 1 };
                            assert(after[j1] == x);
                        }
                    }
                    assert(self@ =~= old(self)@.remove(k));
                }
                false
            },
            None => {
                self.held.push(k);
                proof {
                    let after = self.held@;
                    assert(after == before.push(k));
                    assert forall|x: KeyCode| after.contains(x) <==> (before.contains(x) || x == k) by {
                        if after.contains(x) && x != k {
                            let j = choose|j: int| 0 <= j < after.len() && after[j] == x;
                            assert(before[j] == x);
                        }
                        if before.contains(x) {
                            let j = choose|j: int| 0 <= j < before.len() && before[j] == x;
                            assert(after[j] == x);
                        }
                        if x == k {
                            assert(after[before.len() as int] == k);
                        }
                    }
                    assert forall|a: int, b: int|
                        0 <= a < after.len() && 0 <= b < after.len() && a != b
                        implies after[a] != after[b] by {
                        if a < before.len() && b < before.len() {
                            assert(after[a] == before[a] && after[b] == before[b]);
                        } else if a < before.len() {
                            assert(before.contains(after[a]));
                        } else {
                            assert(before.contains(after[b]));
                        }
                    }
                    assert(self@ =~= old(self)@.insert(k));
                }
                true
            },
        }
    }

    /// Releases every key.
    pub fn clear(&mut self)
        ensures
            final(self).wf(),
            final(self)@ == Set::<KeyCode>::empty(),
    {
        self.held.clear();
        proof {
            assert(self@ =~= Set::<KeyCode>::empty());
        }
    }
}

} // verus!
