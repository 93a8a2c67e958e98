use display_switch_keycombo::configuration::{KeyCombinations, SwitchDirection};
use display_switch_keycombo::key::Key;
use display_switch_keycombo::key_combination::KeyCombination;
use display_switch_keycombo::key_detect::{KeyDetect, KeyDetectCallback};
use display_switch_keycombo::registry::ChordRegistry;
use display_switch_keycombo::tracker::PressedKeyTracker;

fn combos(
    a: Option<KeyCombination>,
    b: Option<KeyCombination>,
    c: Option<KeyCombination>,
    d: Option<KeyCombination>,
) -> KeyCombinations {
    KeyCombinations { combo_a: a, combo_b: b, combo_c: c, combo_d: d }
}

#[test]
fn test_is_match_is_subset_test() {
    let chord = KeyCombination::new(vec![Key::ShiftLeft, Key::ControlLeft]);
    // Extra unrelated keys never prevent a match.
    assert!(chord.is_match(&vec![Key::KeyA, Key::ShiftLeft, Key::ControlLeft]));
    // A missing chord key always prevents a match.
    assert!(!chord.is_match(&vec![Key::ShiftLeft, Key::KeyA]));
    assert!(!chord.is_match(&vec![]));
}

#[test]
fn test_press_is_idempotent() {
    let mut tracker = PressedKeyTracker::new();
    tracker.on_press(Key::KeyA);
    let after_first: Vec<Key> = tracker.snapshot().clone();
    tracker.on_press(Key::KeyA);
    tracker.on_press(Key::KeyA);
    assert_eq!(tracker.snapshot(), &after_first);
    assert_eq!(tracker.snapshot().len(), 1);
}

#[test]
fn test_release_of_untracked_key_is_noop() {
    let mut tracker = PressedKeyTracker::new();
    tracker.on_release(Key::KeyZ);
    assert_eq!(tracker.snapshot().len(), 0);
    tracker.on_press(Key::KeyA);
    tracker.on_release(Key::KeyB);
    assert_eq!(tracker.snapshot(), &vec![Key::KeyA]);
}

#[test]
fn test_chord_sequence_fires_and_is_restartable() {
    let registry = ChordRegistry::from_combinations(combos(
        Some(KeyCombination::new(vec![Key::ShiftLeft, Key::ControlLeft, Key::Comma])),
        None,
        None,
        None,
    ));
    let mut tracker = PressedKeyTracker::new();

    tracker.on_press(Key::ShiftLeft);
    assert_eq!(registry.evaluate(tracker.snapshot()).len(), 0);
    tracker.on_press(Key::ControlLeft);
    assert_eq!(registry.evaluate(tracker.snapshot()).len(), 0);
    tracker.on_press(Key::Comma);
    let fired = registry.evaluate(tracker.snapshot());
    assert_eq!(fired.len(), 1);
    assert!(matches!(fired[0], SwitchDirection::A));

    // Releasing a chord key and pressing it again fires the chord again.
    tracker.on_release(Key::Comma);
    assert_eq!(registry.evaluate(tracker.snapshot()).len(), 0);
    tracker.on_press(Key::Comma);
    let fired_again = registry.evaluate(tracker.snapshot());
    assert_eq!(fired_again.len(), 1);
    assert!(matches!(fired_again[0], SwitchDirection::A));
}

#[test]
fn test_empty_chord_is_never_registered() {
    let registry = ChordRegistry::from_combinations(combos(
        Some(KeyCombination::new(vec![])),
        Some(KeyCombination::new(vec![Key::KeyB])),
        None,
        None,
    ));
    assert_eq!(registry.len(), 1);
    let pressed = vec![Key::KeyA, Key::KeyB, Key::ShiftLeft, Key::Comma];
    let fired = registry.evaluate(&pressed);
    assert_eq!(fired.len(), 1);
    assert!(matches!(fired[0], SwitchDirection::B));
}

#[test]
fn test_evaluate_yields_all_matches_in_registration_order() {
    // A two-key chord nested inside a three-key chord: both fire.
    let registry = ChordRegistry::from_combinations(combos(
        Some(KeyCombination::new(vec![Key::ShiftLeft, Key::ControlLeft, Key::Comma])),
        Some(KeyCombination::new(vec![Key::ShiftLeft, Key::ControlLeft])),
        None,
        Some(KeyCombination::new(vec![Key::KeyZ])),
    ));
    let pressed = vec![Key::Comma, Key::ControlLeft, Key::ShiftLeft];
    let fired = registry.evaluate(&pressed);
    assert_eq!(fired.len(), 2);
    assert!(matches!(fired[0], SwitchDirection::A));
    assert!(matches!(fired[1], SwitchDirection::B));
}

struct Recorder {
    presses: Vec<Key>,
    releases: Vec<Key>,
}

impl KeyDetectCallback for Recorder {
    fn key_pressed(&mut self, key: &Key) {
        self.presses.push(*key);
    }

    fn key_released(&mut self, key: &Key) {
        self.releases.push(*key);
    }
}

#[test]
fn test_key_detect_forwards_events() {
    let recorder = Recorder { presses: Vec::new(), releases: Vec::new() };
    let mut detect = KeyDetect::new(recorder);
    detect.notify_press(Key::KeyA);
    detect.notify_press(Key::Unknown(7));
    detect.notify_release(Key::KeyA);
    let recorder = detect.into_callback();
    assert_eq!(recorder.presses, vec![Key::KeyA, Key::Unknown(7)]);
    assert_eq!(recorder.releases, vec![Key::KeyA]);
}

#[test]
fn test_key_names_and_chord_description() {
    assert_eq!(Key::Comma.name(), "Comma");
    assert_eq!(Key::Unknown(99).name(), "Unknown");
    let chord = KeyCombination::new(vec![Key::ShiftLeft, Key::ControlLeft, Key::Comma]);
    assert_eq!(chord.describe(), "ShiftLeft+ControlLeft+Comma");
    assert_eq!(KeyCombination::new(vec![]).describe(), "");
    assert_eq!(KeyCombination::new(vec![Key::KeyA]).describe(), "KeyA");
}

#[test]
fn test_description() {
    assert_eq!(SwitchDirection::A.description(), "Switched to input A");
    assert_eq!(SwitchDirection::D.description(), "Switched to input D");
}
