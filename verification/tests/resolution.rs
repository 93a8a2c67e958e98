use display_switch_keycombo::configuration::{
    Configuration, InputSource, InputSources, KeyCombinations, PerMonitorConfiguration,
    SwitchDirection,
};
use display_switch_keycombo::key::Key;
use display_switch_keycombo::key_combination::KeyCombination;

fn empty_sources() -> InputSources {
    InputSources {
        input_a: None,
        input_b: None,
        input_c: None,
        input_d: None,
        input_a_execute: None,
        input_b_execute: None,
        input_c_execute: None,
        input_d_execute: None,
    }
}

fn config_with(
    defaults: InputSources,
    monitor1: Option<PerMonitorConfiguration>,
    monitor2: Option<PerMonitorConfiguration>,
) -> Configuration {
    Configuration {
        key_combinations: KeyCombinations {
            combo_a: Some(KeyCombination::new(vec![
                Key::ShiftLeft,
                Key::ControlLeft,
                Key::Comma,
            ])),
            combo_b: None,
            combo_c: None,
            combo_d: None,
        },
        default_input_sources: defaults,
        monitor1,
        monitor2,
        monitor3: None,
        monitor4: None,
        monitor5: None,
        monitor6: None,
    }
}

#[test]
fn test_per_monitor_config() {
    let defaults = InputSources {
        input_a: Some(InputSource::new(0x10)),
        input_d: Some(InputSource::new(0x20)),
        input_a_execute: Some("foo".to_string()),
        ..empty_sources()
    };
    let monitor1 = PerMonitorConfiguration {
        monitor_id: "123".to_string(),
        input_sources: InputSources {
            input_a: Some(InputSource::new(0x11)),
            input_d_execute: Some("bar".to_string()),
            ..empty_sources()
        },
    };
    let monitor2 = PerMonitorConfiguration {
        monitor_id: "45".to_string(),
        input_sources: InputSources {
            input_a: Some(InputSource::new(0x12)),
            input_d: Some(InputSource::new(0x13)),
            ..empty_sources()
        },
    };
    let config = config_with(defaults, Some(monitor1), Some(monitor2));

    // When no specific monitor matches, use the global defaults
    assert_eq!(config.configuration_for_monitor("333").input_a.unwrap().value(), 0x10);
    // Matches monitor #1, and it should use its "input_a" and global "input_d"
    assert_eq!(config.configuration_for_monitor("1234").input_a.unwrap().value(), 0x11);
    assert_eq!(config.configuration_for_monitor("1234").input_d.unwrap().value(), 0x20);
    // Matches monitor #2, and it should use its "input_a" and "input_d" values
    assert_eq!(config.configuration_for_monitor("2345").input_a.unwrap().value(), 0x12);
    assert_eq!(config.configuration_for_monitor("2345").input_d.unwrap().value(), 0x13);
    // Optional "run command" on "input_a_execute" / "input_d_execute"
    assert_eq!(config.configuration_for_monitor("123").input_a_execute, None);
    assert_eq!(
        config.configuration_for_monitor("123").input_d_execute,
        Some("bar".to_string())
    );
}

#[test]
fn test_override_wins_via_substring_match() {
    let defaults = InputSources { input_a: Some(InputSource::new(0x10)), ..empty_sources() };
    let monitor1 = PerMonitorConfiguration {
        monitor_id: "123".to_string(),
        input_sources: InputSources { input_a: Some(InputSource::new(0x11)), ..empty_sources() },
    };
    let config = config_with(defaults, Some(monitor1), None);
    assert_eq!(config.configuration_for_monitor("DELL-123X").input_a.unwrap().value(), 0x11);
}

#[test]
fn test_default_command_is_never_inherited() {
    let defaults = InputSources {
        input_a: Some(InputSource::new(0x10)),
        input_a_execute: Some("notify-default".to_string()),
        ..empty_sources()
    };
    let monitor1 = PerMonitorConfiguration {
        monitor_id: "mon".to_string(),
        input_sources: empty_sources(),
    };
    let config = config_with(defaults, Some(monitor1), None);
    let resolved = config.configuration_for_monitor("mon-17");
    // The matching override has no command of its own: none applies.
    assert_eq!(resolved.input_a_execute, None);
    assert_eq!(resolved.execute_command(SwitchDirection::A), None);
    // The value still falls back to the default.
    assert_eq!(resolved.input_a.unwrap().value(), 0x10);
}

#[test]
fn test_no_matching_override_yields_pure_defaults() {
    let defaults = InputSources {
        input_a: Some(InputSource::new(0x10)),
        input_b: Some(InputSource::new(0x21)),
        input_a_execute: Some("notify-default".to_string()),
        ..empty_sources()
    };
    let monitor1 = PerMonitorConfiguration {
        monitor_id: "123".to_string(),
        input_sources: InputSources { input_a: Some(InputSource::new(0x11)), ..empty_sources() },
    };
    let config = config_with(defaults, Some(monitor1), None);
    let resolved = config.configuration_for_monitor("999");
    assert_eq!(resolved.input_a.unwrap().value(), 0x10);
    assert_eq!(resolved.input_b.unwrap().value(), 0x21);
    assert_eq!(resolved.input_c, None);
    assert_eq!(resolved.input_d, None);
    // Commands never apply when no override matches, even if configured.
    assert_eq!(resolved.input_a_execute, None);
    assert_eq!(resolved.input_b_execute, None);
    assert_eq!(resolved.input_c_execute, None);
    assert_eq!(resolved.input_d_execute, None);
}

#[test]
fn test_first_declared_override_wins() {
    let defaults = empty_sources();
    let monitor1 = PerMonitorConfiguration {
        monitor_id: "23".to_string(),
        input_sources: InputSources { input_a: Some(InputSource::new(0x01)), ..empty_sources() },
    };
    let monitor2 = PerMonitorConfiguration {
        monitor_id: "123".to_string(),
        input_sources: InputSources { input_a: Some(InputSource::new(0x02)), ..empty_sources() },
    };
    // Both identifiers are substrings of "x123": the first declared wins.
    let config = config_with(defaults, Some(monitor1), Some(monitor2));
    assert_eq!(config.configuration_for_monitor("x123").input_a.unwrap().value(), 0x01);
}

#[test]
fn test_match_ignores_letter_case() {
    let defaults = InputSources { input_b: Some(InputSource::new(0x05)), ..empty_sources() };
    let monitor1 = PerMonitorConfiguration {
        monitor_id: "ABC".to_string(),
        input_sources: InputSources { input_b: Some(InputSource::new(0x06)), ..empty_sources() },
    };
    let config = config_with(defaults, Some(monitor1), None);
    // An upper-case identifier matches a lower-case monitor id, and the
    // other way round.
    assert_eq!(config.configuration_for_monitor("xabcx").input_b.unwrap().value(), 0x06);
    let monitor_lower = PerMonitorConfiguration {
        monitor_id: "abc".to_string(),
        input_sources: InputSources { input_b: Some(InputSource::new(0x07)), ..empty_sources() },
    };
    let config2 = config_with(
        InputSources { input_b: Some(InputSource::new(0x05)), ..empty_sources() },
        Some(monitor_lower),
        None,
    );
    assert_eq!(config2.configuration_for_monitor("DELL ABC 27").input_b.unwrap().value(), 0x07);
}

#[test]
fn test_source_and_execute_command_by_direction() {
    let sources = InputSources {
        input_a: Some(InputSource::new(1)),
        input_b: None,
        input_c: Some(InputSource::new(3)),
        input_d: None,
        input_a_execute: Some("run-a".to_string()),
        input_b_execute: None,
        input_c_execute: None,
        input_d_execute: Some("run-d".to_string()),
    };
    assert_eq!(sources.source(SwitchDirection::A).unwrap().value(), 1);
    assert_eq!(sources.source(SwitchDirection::B), None);
    assert_eq!(sources.source(SwitchDirection::C).unwrap().value(), 3);
    assert_eq!(sources.source(SwitchDirection::D), None);
    assert_eq!(sources.execute_command(SwitchDirection::A), Some("run-a"));
    assert_eq!(sources.execute_command(SwitchDirection::B), None);
    assert_eq!(sources.execute_command(SwitchDirection::C), None);
    assert_eq!(sources.execute_command(SwitchDirection::D), Some("run-d"));
}

#[test]
fn test_merge_per_field() {
    let default = InputSources {
        input_a: Some(InputSource::new(0x10)),
        input_b: Some(InputSource::new(0x20)),
        input_a_execute: Some("default-a".to_string()),
        ..empty_sources()
    };
    let over = InputSources {
        input_a: Some(InputSource::new(0x11)),
        input_b_execute: Some("over-b".to_string()),
        ..empty_sources()
    };
    let merged = over.merge(&default);
    // Values: the override's when present, else the default's.
    assert_eq!(merged.input_a.unwrap().value(), 0x11);
    assert_eq!(merged.input_b.unwrap().value(), 0x20);
    assert_eq!(merged.input_c, None);
    // Commands: the override's alone; the default's is never taken over.
    assert_eq!(merged.input_a_execute, None);
    assert_eq!(merged.input_b_execute, Some("over-b".to_string()));
}

#[test]
fn test_empty_monitor_id_matches_everything() {
    let defaults = empty_sources();
    let monitor1 = PerMonitorConfiguration {
        monitor_id: "".to_string(),
        input_sources: InputSources { input_c: Some(InputSource::new(9)), ..empty_sources() },
    };
    let config = config_with(defaults, Some(monitor1), None);
    assert_eq!(config.configuration_for_monitor("anything").input_c.unwrap().value(), 9);
}
