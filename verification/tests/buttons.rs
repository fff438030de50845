use amos_tauri::buttons::{
    dom_dispatch_script, hardware_name, ButtonAction, HardwareButton, HardwareButtons,
    MAX_BUTTON_NAME_BYTES,
};
use amos_tauri::error::ErrorCode;

#[test]
fn from_name_parses_all_three_and_rejects_unknown() {
    assert_eq!(
        HardwareButton::from_name("home"),
        Some(HardwareButton::Home)
    );
    assert_eq!(
        HardwareButton::from_name("VOICE"),
        Some(HardwareButton::Voice)
    );
    assert_eq!(
        HardwareButton::from_name("ai"),
        Some(HardwareButton::AiAssistant)
    );
    assert_eq!(
        HardwareButton::from_name("assistant"),
        Some(HardwareButton::AiAssistant)
    );
    assert_eq!(HardwareButton::from_name("volume"), None);
    assert_eq!(HardwareButton::from_name(""), None);
}

#[test]
fn button_maps_to_action() {
    assert_eq!(
        ButtonAction::from(HardwareButton::Home),
        ButtonAction::GoHome
    );
    assert_eq!(
        ButtonAction::from(HardwareButton::Voice),
        ButtonAction::VoiceInput
    );
    assert_eq!(
        ButtonAction::from(HardwareButton::AiAssistant),
        ButtonAction::OpenAiAssistant
    );
}

#[test]
fn state_records_last_press() {
    let b = HardwareButtons::new();
    assert_eq!(b.last(), None);
}

#[test]
fn oversized_button_name_is_rejected_before_parsing() {
    let huge = "x".repeat(MAX_BUTTON_NAME_BYTES + 1);
    assert_eq!(HardwareButton::from_name(&huge), None);
    let err = HardwareButton::parse(&huge).expect_err("oversized is rejected");
    assert_eq!(err.code, ErrorCode::ButtonsNameTooLong);
    assert!(
        err.message.contains("limit"),
        "the message names the cap: {err:?}"
    );

    let at_cap = "x".repeat(MAX_BUTTON_NAME_BYTES);
    assert_eq!(HardwareButton::from_name(&at_cap), None);
}

#[test]
fn parse_returns_a_typed_envelope_for_unknown_buttons() {
    let err = HardwareButton::parse("volume").expect_err("unknown is rejected");
    assert_eq!(err.code, ErrorCode::ButtonsUnknown);
    assert!(
        err.message.contains("volume"),
        "the message keeps the offending name for diagnostics: {err:?}"
    );

    let err = HardwareButton::parse("   ").expect_err("whitespace is unknown");
    assert_eq!(err.code, ErrorCode::ButtonsUnknown);
}

#[test]
fn known_button_names_still_parse_through_the_envelope() {
    for (input, expected) in [
        ("home", HardwareButton::Home),
        ("Voice", HardwareButton::Voice),
        ("ai_assistant", HardwareButton::AiAssistant),
        ("assistant", HardwareButton::AiAssistant),
    ] {
        assert_eq!(HardwareButton::parse(input).unwrap(), expected);
    }
}

#[test]
fn error_codes_for_buttons_are_distinct_stability_keys() {
    let too_long = HardwareButton::parse(&"x".repeat(MAX_BUTTON_NAME_BYTES + 1)).unwrap_err();
    let unknown = HardwareButton::parse("nope").unwrap_err();
    assert_ne!(too_long.code, unknown.code);
    assert!(too_long.code().starts_with("amos.buttons."));
    assert!(unknown.code().starts_with("amos.buttons."));
}

#[test]
fn the_too_long_message_names_the_size_and_the_limit() {
    let err = HardwareButton::parse(&"x".repeat(300)).unwrap_err();
    assert_eq!(err.message, "button name is 300 bytes (limit 256)");
}

#[test]
fn frontend_names_round_trip_through_the_parser() {
    for b in [HardwareButton::Home, HardwareButton::Voice, HardwareButton::AiAssistant] {
        assert_eq!(HardwareButton::from_name(&hardware_name(b)), Some(b));
    }
    assert_eq!(hardware_name(HardwareButton::AiAssistant), "ai_assistant");
}

#[test]
fn the_first_press_waits_until_it_is_pulled() {
    let mut b = HardwareButtons::new();
    b.press(HardwareButton::Home);
    b.press(HardwareButton::Voice);
    assert_eq!(b.last(), Some(HardwareButton::Voice));
    assert_eq!(b.take_pending(), Some(HardwareButton::Home));
    assert_eq!(b.take_pending(), None);
    b.press(HardwareButton::AiAssistant);
    assert_eq!(b.take_pending(), Some(HardwareButton::AiAssistant));
}

#[test]
fn the_dom_script_carries_the_frontend_name() {
    let js = dom_dispatch_script(HardwareButton::Home).expect("small script");
    assert_eq!(
        js,
        "window.dispatchEvent(new CustomEvent('hardware-button', {detail: {name: 'home'}}));"
    );
}

#[test]
fn a_name_exactly_at_the_cap_is_refused_even_when_it_trims_to_a_button() {
    let s = " ".repeat(MAX_BUTTON_NAME_BYTES - 4) + "home";
    assert_eq!(s.len(), MAX_BUTTON_NAME_BYTES);
    assert_eq!(HardwareButton::from_name(&s), None);
    let err = HardwareButton::parse(&s).unwrap_err();
    assert_eq!(err.message, "button name is 256 bytes (limit 256)");
    let below = " ".repeat(MAX_BUTTON_NAME_BYTES - 5) + "home";
    assert_eq!(HardwareButton::from_name(&below), Some(HardwareButton::Home));
}

#[test]
fn of_several_presses_the_first_is_pulled_once() {
    let mut b = HardwareButtons::new();
    assert_eq!(b.take_pending(), None);
    b.press(HardwareButton::Voice);
    b.press(HardwareButton::Home);
    b.press(HardwareButton::AiAssistant);
    assert_eq!(b.take_pending(), Some(HardwareButton::Voice));
    assert_eq!(b.take_pending(), None);
    assert_eq!(b.last(), Some(HardwareButton::AiAssistant));
}
