use imgcat::capability::classify_terminal;
use imgcat::capability::CapabilityResult;

#[test]
fn iterm_is_supported() {
    let value = Some("iTerm.app".to_string());
    assert_eq!(classify_terminal(&value), CapabilityResult::Supported);
}

#[test]
fn apple_terminal_is_known_incompatible() {
    let value = Some("Apple_Terminal".to_string());
    assert_eq!(classify_terminal(&value), CapabilityResult::KnownIncompatibleTerminal);
}

#[test]
fn unset_variable_means_indicator_absent() {
    assert_eq!(classify_terminal(&None), CapabilityResult::IndicatorAbsent);
}

#[test]
fn other_value_is_unknown_terminal() {
    let value = Some("foo".to_string());
    assert_eq!(classify_terminal(&value), CapabilityResult::UnknownTerminal);
}

#[test]
fn empty_value_is_unknown_terminal() {
    let value = Some(String::new());
    assert_eq!(classify_terminal(&value), CapabilityResult::UnknownTerminal);
}

#[test]
fn classification_is_stable_across_calls() {
    let value = Some("iTerm.app".to_string());
    assert_eq!(classify_terminal(&value), classify_terminal(&value));
}
