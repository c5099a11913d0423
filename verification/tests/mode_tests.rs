use colossus::mode::{mode_name, parse_mode_command, ActivityMode, ShutdownSignal};

#[test]
fn mode_names_match_the_front_end_protocol() {
    assert_eq!(mode_name(ActivityMode::Planning), "planning");
    assert_eq!(mode_name(ActivityMode::Developing), "developing");
    assert_eq!(mode_name(ActivityMode::ErrorNeedsHuman), "error");
}

#[test]
fn operator_commands_parse_to_the_two_settable_modes() {
    assert_eq!(parse_mode_command("planning"), Some(ActivityMode::Planning));
    assert_eq!(
        parse_mode_command("developing"),
        Some(ActivityMode::Developing)
    );
}

#[test]
fn error_mode_cannot_be_requested_from_outside() {
    assert_eq!(parse_mode_command("error"), None);
    assert_eq!(parse_mode_command("ErrorNeedsHuman"), None);
}

#[test]
fn unknown_mode_commands_are_rejected() {
    assert_eq!(parse_mode_command(""), None);
    assert_eq!(parse_mode_command("Planning"), None);
    assert_eq!(parse_mode_command("developing "), None);
    assert_eq!(parse_mode_command("idle"), None);
}

#[test]
fn mode_names_round_trip_for_settable_modes() {
    for mode in [ActivityMode::Planning, ActivityMode::Developing] {
        assert_eq!(parse_mode_command(mode_name(mode)), Some(mode));
    }
}

#[test]
fn shutdown_signal_starts_low_and_stays_raised() {
    let mut signal = ShutdownSignal::new();
    assert!(!signal.should_halt());
    signal.raise();
    assert!(signal.should_halt());
    signal.raise();
    assert!(signal.should_halt());
}
