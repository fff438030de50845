use std::sync::{Arc, Mutex};

use amos_tauri::display::codes;
use amos_tauri::display::{
    is_on_from, screen_state_content, screen_state_get, screen_state_set, DisplayPower,
    DisplayPowerBridge, FileDisplayPower, ScreenState, MAX_SCREEN_STATE_BYTES,
};

/// A recording stub so the tests can see the bridge drove the seam.
struct MockPower {
    last: Mutex<Option<bool>>,
}

impl MockPower {
    fn new() -> Self {
        Self {
            last: Mutex::new(None),
        }
    }
}

impl DisplayPower for MockPower {
    fn set(&self, on: bool) -> Result<(), String> {
        *self.last.lock().unwrap_or_else(|p| p.into_inner()) = Some(on);
        Ok(())
    }
    fn is_on(&self) -> bool {
        self.last
            .lock()
            .unwrap_or_else(|p| p.into_inner())
            .unwrap_or(false)
    }
}

#[test]
fn bridge_drives_the_injected_seam_and_reads_it_back() {
    let mock = Arc::new(MockPower::new());
    let bridge = DisplayPowerBridge::with(mock.clone());
    assert!(!bridge.current());
    bridge.apply(true).expect("apply on");
    assert!(*mock
        .last
        .lock()
        .unwrap_or_else(|p| p.into_inner())
        .as_ref()
        .expect("recorded"));
    assert!(bridge.current());
    bridge.apply(false).expect("apply off");
    assert!(!bridge.current());
}

#[test]
fn the_commands_report_the_state_they_drove() {
    let mock = Arc::new(MockPower::new());
    let bridge = DisplayPowerBridge::with(mock);
    assert!(screen_state_set(&bridge, true).unwrap().on);
    assert!(screen_state_get(&bridge).unwrap().on);
    assert!(!screen_state_set(&bridge, false).unwrap().on);
    assert!(!screen_state_get(&bridge).unwrap().on);
}

#[test]
fn display_codes_are_stable_string_keys() {
    assert_eq!(codes::CONTRACT_MISSING, "amos.display.contract_missing");
    assert_eq!(codes::WRITE_FAILED, "amos.display.write_failed");
    assert_eq!(codes::READ_MALFORMED, "amos.display.read_malformed");
}

#[test]
fn file_power_without_path_errors_honestly_and_reads_conservative_on() {
    let power = FileDisplayPower::at(None);
    let err = power.contract_path().unwrap_err();
    assert!(err.contains("AMOS_SCREEN_STATE_PATH not set"), "{err}");
    assert!(is_on_from(None));
    let power = FileDisplayPower::at(Some("/tmp/screen.state".to_string()));
    assert_eq!(power.contract_path().unwrap(), "/tmp/screen.state");
}

#[test]
fn the_screen_state_content_is_on_or_off() {
    assert_eq!(screen_state_content(true), "on");
    assert_eq!(screen_state_content(false), "off");
    assert!(is_on_from(Some(ScreenState::On)));
    assert!(!is_on_from(Some(ScreenState::Off)));
}

#[test]
fn the_screen_state_cap_is_a_small_known_value() {
    assert!(MAX_SCREEN_STATE_BYTES >= 16);
    assert!(MAX_SCREEN_STATE_BYTES <= 4096);
    assert!(("on".len() as u64) < MAX_SCREEN_STATE_BYTES);
    assert!(("off".len() as u64) < MAX_SCREEN_STATE_BYTES);
}
