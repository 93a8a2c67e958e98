//! Live key state: which keys are currently held down.

use vstd::prelude::*;

use crate::key::{vec_contains_key, Key};

verus! {

/// The set of keys currently held down, updated by raw press/release
/// notifications from the OS keyboard hook. A key is tracked exactly when
/// the most recent notification for it was a press with no release since.
pub struct PressedKeyTracker {
    pressed: Vec<Key>,
}

impl View for PressedKeyTracker {
    type V = Seq<Key>;

    closed spec fn view(&self) -> Seq<Key> {
        self.pressed@
    }
}

impl PressedKeyTracker {
    /// The tracked sequence never holds a key twice, so it behaves as a set.
    pub closed spec fn wf(&self) -> bool {
        forall|i: int, j: int|
            0 <= i < j < self.pressed@.len() ==> self.pressed@[i] != self.pressed@[j]
    }

    /// An empty tracker: no key is held at process start.
    pub fn new() -> (r: Self)
        ensures
            r.wf(),
            r@ =~= Seq::<Key>::empty(),
    {
        PressedKeyTracker { pressed: Vec::new() }
    }

    /// Record a press of `key`: add it unless it is already tracked.
    /// Repeated presses without an intervening release leave the state
    /// unchanged after the first, so OS key-repeat is absorbed.
    pub fn on_press(&mut self, key: Key)
        requires
            old(self).wf(),
        ensures
            final(self).wf(),
            old(self)@.contains(key) ==> final(self)@ == old(self)@,
            !old(self)@.contains(key) ==> final(self)@ == old(self)@.push(key),
            forall|k: Key| final(self)@.contains(k) <==> (old(self)@.contains(k) || k == key),
    {
        if !vec_contains_key(&self.pressed, key) {
            self.pressed.push(key);
            proof {
                let pre = old(self)@;
                let post = self@;
                assert(post == pre.push(key));
                assert forall|a: int, b: int| 0 <= a < b < post.len() implies post[a] != post[b] by {
                    if b < pre.len() {
                        assert(post[a] == pre[a] && post[b] == pre[b]);
                    } else {
                        assert(post[b] == key && post[a] == pre[a]);
                        assert(pre.contains(pre[a]));
                    }
                }
                assert forall|k: Key| #[trigger] post.contains(k) implies
                    (pre.contains(k) || k == key) by {
                    let j = choose|j: int| 0 <= j < post.len() && post[j] == k;
                    if j < pre.len() {
                        assert(pre[j] == k);
                    }
                }
                assert forall|k: Key| pre.contains(k) || k == key implies post.contains(k) by {
                    if pre.contains(k) {
                        let j = choose|j: int| 0 <= j < pre.len() && pre[j] == k;
                        assert(post[j] == k);
                    } else {
                        assert(post[pre.len() as int] == key);
                    }
                }
            }
        }
    }

    /// Record a release of `key`: remove it if tracked. Releasing a key that
    /// is not tracked is a no-op; no input is ever rejected.
    pub fn on_release(&mut self, key: Key)
        requires
            old(self).wf(),
        ensures
            final(self).wf(),
            !old(self)@.contains(key) ==> final(self)@ == old(self)@,
            forall|k: Key| final(self)@.contains(k) <==> (old(self)@.contains(k) && k != key),
    {
        let ghost pre = self.pressed@;
        let mut i: usize = 0;
        while i < self.pressed.len()
            invariant
                0 <= i <= pre.len(),
                self.pressed@ == pre,
                old(self)@ == pre,
                old(self).wf(),
                forall|j: int| 0 <= j < i ==> pre[j] != key,
            decreases pre.len() - i,
        {
            if self.pressed[i] == key {
                let ghost ii = i as int;
                self.pressed.remove(i);
                proof {
                    let post = self@;
                    pre.remove_ensures(ii);
                    assert(post == pre.remove(ii));
                    assert forall|a: int, b: int| 0 <= a < b < post.len() implies
                        post[a] != post[b] by {
                        let pa: int = if a < ii { a } else { a + 1 };
                        let pb: int = if b < ii { b } else { b + 1 };
                        assert(post[a] == pre[pa] && post[b] == pre[pb]);
                        assert(pre[pa] != pre[pb]);
                    }
                    assert forall|k: Key| #[trigger] post.contains(k) implies
                        (pre.contains(k) && k != key) by {
                        let j = choose|j: int| 0 <= j < post.len() && post[j] == k;
                        let pj: int = if j < ii { j } else { j + 1 };
                        assert(pre[pj] == k);
                        if j < ii {
                            assert(pre[pj] != key);
                        } else {
                            assert(pre[ii] != pre[pj]);
                            assert(pre[ii] == key);
                        }
                    }
                    assert forall|k: Key| pre.contains(k) && k != key implies post.contains(k) by {
                        let j = choose|j: int| 0 <= j < pre.len() && pre[j] == k;
                        if j < ii {
                            assert(post[j] == k);
                        } else {
                            assert(j != ii);
                            assert(post[j - 1] == pre[j]);
                        }
                    }
                }
                return ;
            }
            i = i + 1;
        }
        proof {
            assert forall|k: Key| self@.contains(k) implies (pre.contains(k) && k != key) by {
                let j = choose|j: int| 0 <= j < self@.len() && self@[j] == k;
                assert(pre[j] != key);
            }
        }
    }

    /// Read-only view of the currently held keys, for chord matching.
    pub fn snapshot(&self) -> (r: &Vec<Key>)
        ensures
            r@ == self@,
    {
        &self.pressed
    }
}

} // verus!
