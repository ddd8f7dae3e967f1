use std::collections::HashSet;

use bevy_brp_extras::keyboard::{
    check_duration, default_duration, validate_keys, validate_send_keys, KeyCodeWrapper,
};
use bevy_brp_extras::plugin::{parse_port, BrpExtrasPlugin, DEFAULT_REMOTE_PORT};

fn keys(names: &[&str]) -> Vec<String> {
    names.iter().map(|n| n.to_string()).collect()
}

#[test]
fn test_port_precedence_default() {
    let plugin = BrpExtrasPlugin::new();
    let (port, description) = plugin.get_effective_port(None);
    assert_eq!(port, DEFAULT_REMOTE_PORT);
    assert_eq!(description, "default");
}

#[test]
fn test_port_precedence_with_port() {
    let plugin = BrpExtrasPlugin::with_port(8080);
    let (port, description) = plugin.get_effective_port(None);
    assert_eq!(port, 8080);
    assert_eq!(description, "with_port");
}

#[test]
fn test_port_precedence_env_override_default() {
    let plugin = BrpExtrasPlugin::new();
    let (port, description) = plugin.get_effective_port(Some("25000"));
    assert_eq!(port, 25000);
    assert_eq!(description, "environment override from default 15702");
}

#[test]
fn test_port_precedence_env_override_with_port() {
    let plugin = BrpExtrasPlugin::with_port(8080);
    let (port, description) = plugin.get_effective_port(Some("25000"));
    assert_eq!(port, 25000);
    assert_eq!(description, "environment override from with_port 8080");
}

#[test]
fn test_port_precedence_invalid_env_var() {
    let plugin = BrpExtrasPlugin::with_port(8080);
    let (port, description) = plugin.get_effective_port(Some("invalid"));
    assert_eq!(port, 8080);
    assert_eq!(description, "with_port");
}

#[test]
fn port_text_reads_like_u16_from_str() {
    for text in ["0", "65535", "+80", "007", "65536", "", "+", "-1", "8o", " 80", "99999999999"] {
        assert_eq!(parse_port(text), text.parse::<u16>().ok(), "{text}");
    }
}

#[test]
fn test_duration_validation_exceeds_maximum() {
    let err = validate_send_keys(&keys(&["KeyA"]), 70_000).unwrap_err();
    assert!(err.contains("exceeds maximum allowed duration"));
    assert!(err.contains("60000ms"));
    assert_eq!(err, "Duration 70000ms exceeds maximum allowed duration of 60000ms (1 minute)");
}

#[test]
fn test_duration_validation_within_maximum() {
    let codes = validate_send_keys(&keys(&["KeyA"]), 30_000).unwrap();
    assert_eq!(codes, vec![KeyCodeWrapper::KeyA]);
    assert_eq!(check_duration(30_000), Ok(30_000));
    assert_eq!(check_duration(60_000), Ok(60_000));
}

#[test]
fn test_default_duration() {
    assert_eq!(default_duration(), 100);
    let codes = validate_send_keys(&keys(&["KeyA", "KeyB", "Space"]), default_duration()).unwrap();
    assert_eq!(codes, vec![KeyCodeWrapper::KeyA, KeyCodeWrapper::KeyB, KeyCodeWrapper::Space]);
}

#[test]
fn test_zero_duration() {
    assert_eq!(validate_send_keys(&keys(&["Enter"]), 0).unwrap(), vec![KeyCodeWrapper::Enter]);
}

#[test]
fn keyboard_test_parse_all_key_codes() {
    let all = KeyCodeWrapper::all();
    assert!(all.len() > 100);
    for k in &all {
        assert_eq!(KeyCodeWrapper::from_name(k.name()), Some(*k), "Failed to parse key code: {}", k.name());
    }
}

#[test]
fn keyboard_test_invalid_key_codes() {
    for invalid_key in ["InvalidKey", "Key1", "Ctrl", "Shift", "F25", "key a", "KEY_A"] {
        let err = validate_keys(&keys(&[invalid_key])).unwrap_err();
        assert_eq!(
            err,
            format!("Invalid key code '{invalid_key}': Unknown key code: {invalid_key}"),
            "Expected error for invalid key: {invalid_key}"
        );
    }
}

#[test]
fn keyboard_test_empty_keys() {
    assert_eq!(validate_send_keys(&keys(&[]), 500).unwrap(), vec![]);
}

#[test]
fn test_list_key_codes() {
    let all = KeyCodeWrapper::all();
    let categories: HashSet<&str> = all.iter().map(|k| k.category()).collect();
    for c in ["Letters", "Digits", "Function", "Modifiers", "Navigation", "Editing", "Numpad", "Special", "Punctuation"] {
        assert!(categories.contains(c));
    }
    assert_eq!(KeyCodeWrapper::KeyA.category(), "Letters");
    assert_eq!(KeyCodeWrapper::Digit0.category(), "Digits");
    assert_eq!(KeyCodeWrapper::F1.category(), "Function");
    assert_eq!(KeyCodeWrapper::ShiftLeft.category(), "Modifiers");
    assert_eq!(KeyCodeWrapper::Space.category(), "Editing");
}

#[test]
fn first_invalid_key_is_reported() {
    let err = validate_send_keys(&keys(&["KeyA", "Nope", "Bad"]), 70_000).unwrap_err();
    assert_eq!(err, "Invalid key code 'Nope': Unknown key code: Nope");
}
