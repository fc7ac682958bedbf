//! The standard configuration lifecycle shared by every Nexus.

use nexus::{Configurable, ConfigurationState, ConfigurationTransitionError};

#[test]
fn ordinary_configuration_closes_only_after_an_actual_meta_configure() {
    let mut state = ConfigurationState::from_default("default");
    state
        .ordinary_configure_if_unset("ordinary")
        .expect("ordinary Configure is open on a fresh Sema");
    assert_eq!(state.desired_configuration(), &"ordinary");
    assert!(!state.meta_configure_occurred());

    state.meta_configure("meta");
    assert_eq!(state.desired_configuration(), &"meta");
    assert!(state.meta_configure_occurred());
    assert_eq!(
        state.ordinary_configure_if_unset("refused"),
        Err(ConfigurationTransitionError::OrdinaryConfigureClosed)
    );
    assert_eq!(state.desired_configuration(), &"meta");
}

#[test]
fn only_the_meta_reversal_reopens_ordinary_configuration() {
    let mut state = ConfigurationState::from_default("default");
    state.meta_configure("meta");
    state.meta_reverse();
    assert!(!state.meta_configure_occurred());
    state
        .ordinary_configure_if_unset("ordinary again")
        .expect("meta reversal reopens ordinary Configure");
    assert_eq!(state.desired_configuration(), &"ordinary again");
}

#[test]
fn a_fresh_state_holds_the_default_and_is_open() {
    let state = ConfigurationState::from_default(String::from("default"));
    assert_eq!(state.desired_configuration(), "default");
    assert!(!state.meta_configure_occurred());
    assert_eq!(state.desired_configuration, String::from("default"));
    assert!(!state.meta_configure_occurred);
}

#[test]
fn a_refused_ordinary_configure_changes_nothing() {
    let mut state = ConfigurationState::from_default(1u32);
    state.meta_configure(2);
    let before = state.clone();
    for attempt in [3u32, 4, 5] {
        assert_eq!(
            state.ordinary_configure_if_unset(attempt),
            Err(ConfigurationTransitionError::OrdinaryConfigureClosed)
        );
        assert_eq!(state, before);
    }
}

#[test]
fn meta_reversal_keeps_the_desired_configuration() {
    let mut state = ConfigurationState::from_default(1u32);
    state.meta_configure(7);
    state.meta_reverse();
    assert_eq!(*state.desired_configuration(), 7);
    state.meta_reverse();
    assert_eq!(*state.desired_configuration(), 7);
    assert!(!state.meta_configure_occurred());
}

#[test]
fn ordinary_configure_never_sets_the_meta_marker() {
    let mut state = ConfigurationState::from_default(0u32);
    for next in 1u32..5 {
        assert_eq!(state.ordinary_configure_if_unset(next), Ok(()));
        assert!(!state.meta_configure_occurred());
        assert_eq!(*state.desired_configuration(), next);
    }
}

#[test]
fn a_meta_configure_applies_even_when_already_closed() {
    let mut state = ConfigurationState::from_default(0u32);
    state.meta_configure(1);
    state.meta_configure(2);
    assert_eq!(*state.desired_configuration(), 2);
    assert!(state.meta_configure_occurred());
}

#[test]
fn the_refusal_describes_itself() {
    assert_eq!(
        ConfigurationTransitionError::OrdinaryConfigureClosed.message(),
        "ordinary Configure is closed after meta Configure"
    );
}
