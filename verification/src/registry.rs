//! The chord registry: the ordered list of (chord, direction) pairs built
//! once from configuration and evaluated on every key-press event.

use vstd::prelude::*;

use crate::configuration::{KeyCombinations, SwitchDirection};
use crate::key::Key;
use crate::key_combination::{chord_matches, KeyCombination};

verus! {

/// The chord configured for `direction`, if any.
pub open spec fn combo_of(combos: KeyCombinations, direction: SwitchDirection) -> Option<
    KeyCombination,
> {
    match direction {
        SwitchDirection::A => combos.combo_a,
        SwitchDirection::B => combos.combo_b,
        SwitchDirection::C => combos.combo_c,
        SwitchDirection::D => combos.combo_d,
    }
}

/// The registry entry for one optional chord: present exactly when the
/// chord is configured and has at least one key.
pub open spec fn opt_entry(combo: Option<KeyCombination>, direction: SwitchDirection) -> Seq<
    (Seq<Key>, SwitchDirection),
> {
    match combo {
        Some(c) => if c@.len() > 0 {
            seq![(c@, direction)]
        } else {
            Seq::empty()
        },
        None => Seq::empty(),
    }
}

/// The registry built from the four configured chords, in the fixed
/// direction order; unconfigured and empty chords are left out.
pub open spec fn spec_registry_of(combos: KeyCombinations) -> Seq<(Seq<Key>, SwitchDirection)> {
    opt_entry(combos.combo_a, SwitchDirection::A) + opt_entry(combos.combo_b, SwitchDirection::B)
        + opt_entry(combos.combo_c, SwitchDirection::C) + opt_entry(
        combos.combo_d,
        SwitchDirection::D,
    )
}

/// The directions whose chords match `pressed`, in registration order.
pub open spec fn spec_evaluate(
    entries: Seq<(Seq<Key>, SwitchDirection)>,
    pressed: Seq<Key>,
) -> Seq<SwitchDirection>
    decreases entries.len(),
{
    if entries.len() == 0 {
        Seq::empty()
    } else {
        let rest = spec_evaluate(entries.drop_last(), pressed);
        if chord_matches(entries.last().0, pressed) {
            rest.push(entries.last().1)
        } else {
            rest
        }
    }
}

/// An ordered list of (chord, direction) pairs, built once at startup and
/// consulted on every press event.
pub struct ChordRegistry {
    entries: Vec<(KeyCombination, SwitchDirection)>,
}

impl View for ChordRegistry {
    type V = Seq<(Seq<Key>, SwitchDirection)>;

    closed spec fn view(&self) -> Seq<(Seq<Key>, SwitchDirection)> {
        self.entries@.map_values(|e: (KeyCombination, SwitchDirection)| (e.0@, e.1))
    }
}

impl ChordRegistry {
    /// Build the registry from the configured chords, in direction order
    /// A, B, C, D. A direction with no chord, or with a chord of zero keys,
    /// is never registered.
    pub fn from_combinations(combos: KeyCombinations) -> (r: Self)
        ensures
            r@ == spec_registry_of(combos),
    {
        let ghost gcombos = combos;
        let KeyCombinations { combo_a, combo_b, combo_c, combo_d } = combos;
        let mut entries: Vec<(KeyCombination, SwitchDirection)> = Vec::new();
        if let Some(c) = combo_a {
            if c.key_count() > 0 {
                entries.push((c, SwitchDirection::A));
            }
        }
        if let Some(c) = combo_b {
            if c.key_count() > 0 {
                entries.push((c, SwitchDirection::B));
            }
        }
        if let Some(c) = combo_c {
            if c.key_count() > 0 {
                entries.push((c, SwitchDirection::C));
            }
        }
        if let Some(c) = combo_d {
            if c.key_count() > 0 {
                entries.push((c, SwitchDirection::D));
            }
        }
        let r = ChordRegistry { entries };
        proof {
            assert(r@ =~= spec_registry_of(gcombos));
        }
        r
    }

    /// The number of registered chords.
    pub fn len(&self) -> (r: usize)
        ensures
            r == self@.len(),
    {
        self.entries.len()
    }

    /// Evaluate the registry against the currently pressed keys: yields, in
    /// registration order, every direction whose chord is fully held. A pure
    /// read: repeated evaluation of the same state gives the same result.
    pub fn evaluate(&self, pressed: &Vec<Key>) -> (r: Vec<SwitchDirection>)
        ensures
            r@ == spec_evaluate(self@, pressed@),
    {
        let mut result: Vec<SwitchDirection> = Vec::new();
        let mut i: usize = 0;
        while i < self.entries.len()
            invariant
                0 <= i <= self.entries@.len(),
                self@.len() == self.entries@.len(),
                result@ == spec_evaluate(self@.take(i as int), pressed@),
            decreases self.entries@.len() - i,
        {
            let e = &self.entries[i];
            proof {
                assert(self@[i as int] == (e.0@, e.1));
                assert(self@.take(i + 1).drop_last() =~= self@.take(i as int));
                assert(self@.take(i + 1).last() == self@[i as int]);
            }
            if e.0.is_match(pressed) {
                result.push(e.1);
            }
            i = i + 1;
        }
        proof {
            assert(self@.take(self.entries@.len() as int) =~= self@);
        }
        result
    }
}

/// Evaluation yields a direction exactly when some registered entry carries
/// that direction and its chord matches the pressed keys.
pub proof fn lemma_evaluate_contains(
    entries: Seq<(Seq<Key>, SwitchDirection)>,
    pressed: Seq<Key>,
    d: SwitchDirection,
)
    ensures
        spec_evaluate(entries, pressed).contains(d) <==> exists|j: int|
            0 <= j < entries.len() && chord_matches(#[trigger] entries[j].0, pressed)
                && entries[j].1 == d,
    decreases entries.len(),
{
    if entries.len() == 0 {
    } else {
        let sub = entries.drop_last();
        let rest = spec_evaluate(sub, pressed);
        lemma_evaluate_contains(sub, pressed, d);
        let n = entries.len() - 1;
        if chord_matches(entries.last().0, pressed) {
            let full = rest.push(entries.last().1);
            assert forall|k: SwitchDirection| rest.contains(k) implies full.contains(k) by {
                let j = choose|j: int| 0 <= j < rest.len() && rest[j] == k;
                assert(full[j] == k);
            }
            assert(full.contains(entries.last().1)) by {
                assert(full[rest.len() as int] == entries.last().1);
            }
            if full.contains(d) {
                let j = choose|j: int| 0 <= j < full.len() && full[j] == d;
                if j < rest.len() {
                    assert(rest.contains(d));
                    let l = choose|l: int|
                        0 <= l < sub.len() && chord_matches(#[trigger] sub[l].0, pressed)
                            && sub[l].1 == d;
                    assert(entries[l] == sub[l]);
                } else {
                    assert(entries[n].1 == d);
                }
            }
            if exists|j: int|
                0 <= j < entries.len() && chord_matches(#[trigger] entries[j].0, pressed)
                    && entries[j].1 == d {
                let j = choose|j: int|
                    0 <= j < entries.len() && chord_matches(#[trigger] entries[j].0, pressed)
                        && entries[j].1 == d;
                if j < n {
                    assert(sub[j] == entries[j]);
                    assert(rest.contains(d));
                } else {
                    assert(full.contains(entries.last().1));
                }
            }
        } else {
            if rest.contains(d) {
                let l = choose|l: int|
                    0 <= l < sub.len() && chord_matches(#[trigger] sub[l].0, pressed) && sub[l].1
                        == d;
                assert(entries[l] == sub[l]);
            }
            if exists|j: int|
                0 <= j < entries.len() && chord_matches(#[trigger] entries[j].0, pressed)
                    && entries[j].1 == d {
                let j = choose|j: int|
                    0 <= j < entries.len() && chord_matches(#[trigger] entries[j].0, pressed)
                        && entries[j].1 == d;
                assert(j < n);
                assert(sub[j] == entries[j]);
            }
        }
    }
}

/// Every registered entry is a configured chord: its direction's combo is
/// present, has the entry's keys, and is not empty.
pub proof fn lemma_registry_sound(combos: KeyCombinations, j: int)
    requires
        0 <= j < spec_registry_of(combos).len(),
    ensures
        combo_of(combos, spec_registry_of(combos)[j].1) matches Some(c) && c@
            == spec_registry_of(combos)[j].0 && c@.len() > 0,
{
}

/// A configured, non-empty chord whose keys are all held always fires:
/// evaluation yields its direction.
pub proof fn lemma_configured_chord_fires(
    combos: KeyCombinations,
    pressed: Seq<Key>,
    d: SwitchDirection,
)
    requires
        combo_of(combos, d) matches Some(c) && c@.len() > 0 && chord_matches(c@, pressed),
    ensures
        spec_evaluate(spec_registry_of(combos), pressed).contains(d),
{
    let entries = spec_registry_of(combos);
    let ea = opt_entry(combos.combo_a, SwitchDirection::A);
    let eb = opt_entry(combos.combo_b, SwitchDirection::B);
    let ec = opt_entry(combos.combo_c, SwitchDirection::C);
    let ed = opt_entry(combos.combo_d, SwitchDirection::D);
    let c = combo_of(combos, d)->Some_0;
    let j: int = match d {
        SwitchDirection::A => 0,
        SwitchDirection::B => ea.len() as int,
        SwitchDirection::C => ea.len() as int + eb.len() as int,
        SwitchDirection::D => ea.len() as int + eb.len() as int + ec.len() as int,
    };
    assert(0 <= j < entries.len());
    assert(entries[j] == (c@, d));
    assert(chord_matches(entries[j].0, pressed));
    lemma_evaluate_contains(entries, pressed, d);
}

/// A direction whose chord is unconfigured, or configured with zero keys,
/// is never yielded by evaluation, whatever keys are pressed.
pub proof fn lemma_empty_chord_never_fires(
    combos: KeyCombinations,
    pressed: Seq<Key>,
    d: SwitchDirection,
)
    requires
        match combo_of(combos, d) {
            Some(c) => c@.len() == 0,
            None => true,
        },
    ensures
        !spec_evaluate(spec_registry_of(combos), pressed).contains(d),
{
    let entries = spec_registry_of(combos);
    lemma_evaluate_contains(entries, pressed, d);
    assert forall|j: int| 0 <= j < entries.len() implies #[trigger] entries[j].1 != d by {
        lemma_registry_sound(combos, j);
    }
}

} // verus!
