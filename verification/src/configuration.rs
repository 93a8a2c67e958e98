//! Configuration data model: switch directions, input-source mappings,
//! per-monitor overrides, and the merge rule that resolves the effective
//! mapping for one monitor.

use vstd::prelude::*;

use crate::key_combination::KeyCombination;
use crate::text::{contains_ignoring_case, matches_ignoring_case};

verus! {

/// One of the four configurable switch targets. A chord and an input-source
/// mapping are configured independently for each direction.
#[derive(Debug, Clone, Copy, PartialEq, Eq, Structural)]
pub enum SwitchDirection {
    A,
    B,
    C,
    D,
}

impl SwitchDirection {
    /// The message logged when a switch in this direction has been made.
    pub open spec fn spec_description(self) -> Seq<char> {
        match self {
            SwitchDirection::A => "Switched to input A"@,
            SwitchDirection::B => "Switched to input B"@,
            SwitchDirection::C => "Switched to input C"@,
            SwitchDirection::D => "Switched to input D"@,
        }
    }

    /// A human-readable description of a completed switch.
    pub fn description(&self) -> (r: String)
        ensures
            r@ == self.spec_description(),
    {
        match self {
            SwitchDirection::A => "Switched to input A".to_owned(),
            SwitchDirection::B => "Switched to input B".to_owned(),
            SwitchDirection::C => "Switched to input C".to_owned(),
            SwitchDirection::D => "Switched to input D".to_owned(),
        }
    }
}

/// A numeric identifier for a monitor video input (for example a
/// DisplayPort or HDMI channel code).
#[derive(Debug, Clone, Copy, PartialEq, Eq, Structural)]
pub struct InputSource {
    pub value: u16,
}

impl InputSource {
    pub fn new(value: u16) -> (r: Self)
        ensures
            r.value == value,
    {
        InputSource { value }
    }

    pub fn value(&self) -> (r: u16)
        ensures
            r == self.value,
    {
        self.value
    }
}

/// For each switch direction: an optional input-source value and an optional
/// shell command to run after switching. One instance holds the process-wide
/// defaults; further instances are per-monitor overrides.
#[derive(Debug, Clone)]
pub struct InputSources {
    pub input_a: Option<InputSource>,
    pub input_b: Option<InputSource>,
    pub input_c: Option<InputSource>,
    pub input_d: Option<InputSource>,
    pub input_a_execute: Option<String>,
    pub input_b_execute: Option<String>,
    pub input_c_execute: Option<String>,
    pub input_d_execute: Option<String>,
}

/// The merge of an override with the defaults: each input value comes from
/// the override when present, else from the defaults; each command comes
/// from the override alone and never falls back to the defaults, so that a
/// default command is not run once per matching monitor.
pub open spec fn merged(over: InputSources, default: InputSources) -> InputSources {
    InputSources {
        input_a: if over.input_a is Some { over.input_a } else { default.input_a },
        input_b: if over.input_b is Some { over.input_b } else { default.input_b },
        input_c: if over.input_c is Some { over.input_c } else { default.input_c },
        input_d: if over.input_d is Some { over.input_d } else { default.input_d },
        input_a_execute: over.input_a_execute,
        input_b_execute: over.input_b_execute,
        input_c_execute: over.input_c_execute,
        input_d_execute: over.input_d_execute,
    }
}

fn clone_opt_string(s: &Option<String>) -> (r: Option<String>)
    ensures
        r == *s,
{
    match s {
        Some(x) => Some(x.clone()),
        None => None,
    }
}

impl InputSources {
    /// The configured input value for `direction`, if any.
    pub open spec fn spec_source(self, direction: SwitchDirection) -> Option<InputSource> {
        match direction {
            SwitchDirection::A => self.input_a,
            SwitchDirection::B => self.input_b,
            SwitchDirection::C => self.input_c,
            SwitchDirection::D => self.input_d,
        }
    }

    /// The configured command for `direction`, if any.
    pub open spec fn spec_command(self, direction: SwitchDirection) -> Option<String> {
        match direction {
            SwitchDirection::A => self.input_a_execute,
            SwitchDirection::B => self.input_b_execute,
            SwitchDirection::C => self.input_c_execute,
            SwitchDirection::D => self.input_d_execute,
        }
    }

    /// Merge this per-monitor mapping over the `default` one. Commands are
    /// deliberately not inherited from the defaults.
    pub fn merge(&self, default: &Self) -> (r: Self)
        ensures
            r == merged(*self, *default),
    {
        InputSources {
            input_a: if self.input_a.is_some() { self.input_a } else { default.input_a },
            input_b: if self.input_b.is_some() { self.input_b } else { default.input_b },
            input_c: if self.input_c.is_some() { self.input_c } else { default.input_c },
            input_d: if self.input_d.is_some() { self.input_d } else { default.input_d },
            input_a_execute: clone_opt_string(&self.input_a_execute),
            input_b_execute: clone_opt_string(&self.input_b_execute),
            input_c_execute: clone_opt_string(&self.input_c_execute),
            input_d_execute: clone_opt_string(&self.input_d_execute),
        }
    }

    /// The input value to switch to for `direction`, if one is configured.
    pub fn source(&self, direction: SwitchDirection) -> (r: Option<InputSource>)
        ensures
            r == self.spec_source(direction),
    {
        match direction {
            SwitchDirection::A => self.input_a,
            SwitchDirection::B => self.input_b,
            SwitchDirection::C => self.input_c,
            SwitchDirection::D => self.input_d,
        }
    }

    /// The command to run after switching in `direction`, if one is
    /// configured.
    pub fn execute_command(&self, direction: SwitchDirection) -> (r: Option<&str>)
        ensures
            match r {
                Some(s) => self.spec_command(direction) matches Some(c) && s@ == c@,
                None => self.spec_command(direction) is None,
            },
    {
        let field = match direction {
            SwitchDirection::A => &self.input_a_execute,
            SwitchDirection::B => &self.input_b_execute,
            SwitchDirection::C => &self.input_c_execute,
            SwitchDirection::D => &self.input_d_execute,
        };
        match field {
            Some(s) => Some(s.as_str()),
            None => None,
        }
    }
}

/// An override block: the same per-direction fields as the defaults, applied
/// to every monitor whose identifier contains `monitor_id` (case
/// insensitively).
#[derive(Debug)]
pub struct PerMonitorConfiguration {
    pub monitor_id: String,
    pub input_sources: InputSources,
}

impl PerMonitorConfiguration {
    /// Whether this block applies to the monitor identified by `monitor_id`.
    pub open spec fn spec_matches(self, monitor_id: Seq<char>) -> bool {
        matches_ignoring_case(self.monitor_id@, monitor_id)
    }

    /// True iff the block's identifier is a case-insensitive substring of
    /// `monitor_id`.
    pub fn matches(&self, monitor_id: &str) -> (r: bool)
        ensures
            r == self.spec_matches(monitor_id@),
    {
        contains_ignoring_case(monitor_id, self.monitor_id.as_str())
    }
}

/// Whether an optional override block exists and applies to `monitor_id`.
pub open spec fn opt_matches(m: Option<PerMonitorConfiguration>, monitor_id: Seq<char>) -> bool {
    m matches Some(c) && c.spec_matches(monitor_id)
}

/// The chord configured for each switch direction; a direction with no
/// chord (or with an empty one) is never triggered.
#[derive(Debug)]
pub struct KeyCombinations {
    pub combo_a: Option<KeyCombination>,
    pub combo_b: Option<KeyCombination>,
    pub combo_c: Option<KeyCombination>,
    pub combo_d: Option<KeyCombination>,
}

/// The whole configuration tree: the chords, the default mapping, and up to
/// six per-monitor override blocks in declaration order.
#[derive(Debug)]
pub struct Configuration {
    pub key_combinations: KeyCombinations,
    pub default_input_sources: InputSources,
    pub monitor1: Option<PerMonitorConfiguration>,
    pub monitor2: Option<PerMonitorConfiguration>,
    pub monitor3: Option<PerMonitorConfiguration>,
    pub monitor4: Option<PerMonitorConfiguration>,
    pub monitor5: Option<PerMonitorConfiguration>,
    pub monitor6: Option<PerMonitorConfiguration>,
}

impl Configuration {
    /// The override blocks in declaration order.
    pub open spec fn override_list(self) -> Seq<Option<PerMonitorConfiguration>> {
        seq![
            self.monitor1,
            self.monitor2,
            self.monitor3,
            self.monitor4,
            self.monitor5,
            self.monitor6,
        ]
    }

    /// The first declared override block that applies to `monitor_id`, if
    /// any: declaration order decides when several blocks apply.
    pub open spec fn selected_override(self, monitor_id: Seq<char>) -> Option<
        PerMonitorConfiguration,
    > {
        if opt_matches(self.monitor1, monitor_id) {
            self.monitor1
        } else if opt_matches(self.monitor2, monitor_id) {
            self.monitor2
        } else if opt_matches(self.monitor3, monitor_id) {
            self.monitor3
        } else if opt_matches(self.monitor4, monitor_id) {
            self.monitor4
        } else if opt_matches(self.monitor5, monitor_id) {
            self.monitor5
        } else if opt_matches(self.monitor6, monitor_id) {
            self.monitor6
        } else {
            None
        }
    }

    /// The effective mapping for the monitor identified by `monitor_id`:
    /// the selected override merged over the defaults, or, when no override
    /// applies, the default values with every command absent.
    pub open spec fn spec_resolve(self, monitor_id: Seq<char>) -> InputSources {
        match self.selected_override(monitor_id) {
            Some(m) => merged(m.input_sources, self.default_input_sources),
            None => InputSources {
                input_a: self.default_input_sources.input_a,
                input_b: self.default_input_sources.input_b,
                input_c: self.default_input_sources.input_c,
                input_d: self.default_input_sources.input_d,
                input_a_execute: None,
                input_b_execute: None,
                input_c_execute: None,
                input_d_execute: None,
            },
        }
    }

    /// Compute the effective input-source mapping for one monitor. Pure:
    /// resolution may be repeated at any time with the same result.
    pub fn configuration_for_monitor(&self, monitor_id: &str) -> (r: InputSources)
        ensures
            r == self.spec_resolve(monitor_id@),
    {
        if let Some(m) = &self.monitor1 {
            if m.matches(monitor_id) {
                return m.input_sources.merge(&self.default_input_sources);
            }
        }
        if let Some(m) = &self.monitor2 {
            if m.matches(monitor_id) {
                return m.input_sources.merge(&self.default_input_sources);
            }
        }
        if let Some(m) = &self.monitor3 {
            if m.matches(monitor_id) {
                return m.input_sources.merge(&self.default_input_sources);
            }
        }
        if let Some(m) = &self.monitor4 {
            if m.matches(monitor_id) {
                return m.input_sources.merge(&self.default_input_sources);
            }
        }
        if let Some(m) = &self.monitor5 {
            if m.matches(monitor_id) {
                return m.input_sources.merge(&self.default_input_sources);
            }
        }
        if let Some(m) = &self.monitor6 {
            if m.matches(monitor_id) {
                return m.input_sources.merge(&self.default_input_sources);
            }
        }
        InputSources {
            input_a: self.default_input_sources.input_a,
            input_b: self.default_input_sources.input_b,
            input_c: self.default_input_sources.input_c,
            input_d: self.default_input_sources.input_d,
            input_a_execute: None,
            input_b_execute: None,
            input_c_execute: None,
            input_d_execute: None,
        }
    }
}

/// A selected override always applies to the monitor it was selected for.
pub proof fn lemma_selected_matches(cfg: Configuration, monitor_id: Seq<char>)
    ensures
        cfg.selected_override(monitor_id) matches Some(m) ==> m.spec_matches(monitor_id),
{
}

/// Merge law, no matching override: resolution yields exactly the default
/// mapping's values, and no command, for every direction.
pub proof fn lemma_merge_law_no_override(
    cfg: Configuration,
    monitor_id: Seq<char>,
    direction: SwitchDirection,
)
    requires
        cfg.selected_override(monitor_id) is None,
    ensures
        cfg.spec_resolve(monitor_id).spec_source(direction) == cfg.default_input_sources.spec_source(
            direction,
        ),
        cfg.spec_resolve(monitor_id).spec_command(direction) is None,
{
}

/// Merge law, matching override `m`: per direction, the resolved value is
/// the override's when present, else the default's; the resolved command is
/// the override's when present, else absent — never the default's.
pub proof fn lemma_merge_law_override(
    cfg: Configuration,
    monitor_id: Seq<char>,
    m: PerMonitorConfiguration,
    direction: SwitchDirection,
)
    requires
        cfg.selected_override(monitor_id) == Some(m),
    ensures
        cfg.spec_resolve(monitor_id).spec_source(direction) == (if m.input_sources.spec_source(
            direction,
        ) is Some {
            m.input_sources.spec_source(direction)
        } else {
            cfg.default_input_sources.spec_source(direction)
        }),
        cfg.spec_resolve(monitor_id).spec_command(direction) == m.input_sources.spec_command(
            direction,
        ),
{
}

/// Override selection is order-stable: when the override at position `i` of
/// the declaration order applies and no earlier one does, it is selected —
/// in particular, of two applying overrides the first declared wins.
pub proof fn lemma_override_order_stable(cfg: Configuration, monitor_id: Seq<char>, i: int)
    requires
        0 <= i < cfg.override_list().len(),
        opt_matches(cfg.override_list()[i], monitor_id),
        forall|l: int| 0 <= l < i ==> !opt_matches(#[trigger] cfg.override_list()[l], monitor_id),
    ensures
        cfg.selected_override(monitor_id) == cfg.override_list()[i],
{
    assert(cfg.override_list()[0] == cfg.monitor1);
    assert(cfg.override_list()[1] == cfg.monitor2);
    assert(cfg.override_list()[2] == cfg.monitor3);
    assert(cfg.override_list()[3] == cfg.monitor4);
    assert(cfg.override_list()[4] == cfg.monitor5);
    assert(cfg.override_list()[5] == cfg.monitor6);
}

} // verus!
