//! Chord-triggered monitor input switching: key-state tracking, chord
//! matching, and per-monitor configuration resolution.

use vstd::prelude::*;

pub mod configuration;
pub mod key;
pub mod key_combination;
pub mod key_detect;
pub mod registry;
pub mod text;
pub mod tracker;

pub use configuration::{
    Configuration, InputSource, InputSources, KeyCombinations, PerMonitorConfiguration,
    SwitchDirection,
};
pub use key::Key;
pub use key_combination::KeyCombination;
pub use key_detect::{KeyDetect, KeyDetectCallback};
pub use registry::ChordRegistry;
pub use tracker::PressedKeyTracker;

verus! {

} // verus!
