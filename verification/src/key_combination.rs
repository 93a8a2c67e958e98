//! Key chords: unordered combinations of keys that must all be held at once.

use vstd::prelude::*;
use vstd::string::StringExecFns;

use crate::key::{vec_contains_key, Key};

verus! {

/// A combination (chord) of keys. The chord is considered active when every
/// one of its keys is currently held down; the order of the keys and the
/// presence of extra, unrelated held keys are irrelevant.
#[derive(Debug)]
pub enum KeyCombination {
    Symbolic(Vec<Key>),
}

impl View for KeyCombination {
    type V = Seq<Key>;

    closed spec fn view(&self) -> Seq<Key> {
        match self {
            KeyCombination::Symbolic(keys) => keys@,
        }
    }
}

/// Whether every key of the chord `chord` is a member of `pressed`:
/// a subset test, not an exact-set test.
pub open spec fn chord_matches(chord: Seq<Key>, pressed: Seq<Key>) -> bool {
    forall|k: Key| chord.contains(k) ==> pressed.contains(k)
}

impl KeyCombination {
    pub fn new(vec: Vec<Key>) -> (r: Self)
        ensures
            r@ == vec@,
    {
        KeyCombination::Symbolic(vec)
    }

    /// The number of keys in the chord.
    pub fn key_count(&self) -> (r: usize)
        ensures
            r == self@.len(),
    {
        match self {
            KeyCombination::Symbolic(keys) => keys.len(),
        }
    }

    /// True iff every key of this chord is a member of `vec`. Extra keys in
    /// `vec` never prevent a match.
    pub fn is_match(&self, vec: &Vec<Key>) -> (r: bool)
        ensures
            r == chord_matches(self@, vec@),
    {
        match self {
            KeyCombination::Symbolic(keys) => {
                let mut i: usize = 0;
                while i < keys.len()
                    invariant
                        0 <= i <= keys@.len(),
                        self@ == keys@,
                        forall|j: int| 0 <= j < i ==> vec@.contains(#[trigger] keys@[j]),
                    decreases keys@.len() - i,
                {
                    if !vec_contains_key(vec, keys[i]) {
                        assert(self@.contains(keys@[i as int]));
                        return false;
                    }
                    i = i + 1;
                }
                assert forall|k: Key| self@.contains(k) implies vec@.contains(k) by {
                    let j = choose|j: int| 0 <= j < keys@.len() && keys@[j] == k;
                    assert(vec@.contains(keys@[j]));
                }
                true
            },
        }
    }
}

/// The key names of a chord joined by `+`.
pub open spec fn spec_describe(keys: Seq<Key>) -> Seq<char>
    decreases keys.len(),
{
    if keys.len() == 0 {
        Seq::empty()
    } else if keys.len() == 1 {
        keys[0].spec_name()
    } else {
        spec_describe(keys.drop_last()) + "+"@ + keys.last().spec_name()
    }
}

impl KeyCombination {
    /// The chord written as its key names joined by `+`, for log messages.
    pub fn describe(&self) -> (r: String)
        ensures
            r@ == spec_describe(self@),
    {
        match self {
            KeyCombination::Symbolic(keys) => {
                let mut s = String::new();
                let mut i: usize = 0;
                while i < keys.len()
                    invariant
                        0 <= i <= keys@.len(),
                        self@ == keys@,
                        s@ == spec_describe(keys@.take(i as int)),
                    decreases keys@.len() - i,
                {
                    if i > 0 {
                        s.append("+");
                    }
                    s.append(keys[i].name());
                    proof {
                        assert(keys@.take(i + 1).drop_last() =~= keys@.take(i as int));
                        assert(keys@.take(i + 1).last() == keys@[i as int]);
                        assert(s@ =~= spec_describe(keys@.take(i + 1)));
                    }
                    i = i + 1;
                }
                proof {
                    assert(keys@.take(keys@.len() as int) =~= keys@);
                }
                s
            },
        }
    }
}

/// Making the pressed set larger never turns a matching chord into a
/// non-matching one: a match is preserved under any extra pressed key.
pub proof fn lemma_match_monotone(chord: Seq<Key>, pressed: Seq<Key>, extra: Key)
    requires
        chord_matches(chord, pressed),
    ensures
        chord_matches(chord, pressed.push(extra)),
{
    assert forall|k: Key| chord.contains(k) implies pressed.push(extra).contains(k) by {
        assert(pressed.contains(k));
        let j = choose|j: int| 0 <= j < pressed.len() && pressed[j] == k;
        assert(pressed.push(extra)[j] == k);
    }
}

/// Removing any key of the chord from the pressed set always breaks the
/// match: afterwards the chord no longer matches.
pub proof fn lemma_match_needs_every_key(chord: Seq<Key>, pressed: Seq<Key>, k: Key)
    requires
        chord.contains(k),
        !pressed.contains(k),
    ensures
        !chord_matches(chord, pressed),
{
}

} // verus!
