use amos_tauri::desktop_features::{
    disabled_for, disabled_from, stray_vars, DesktopFeature, DOCK_CONTEXT_MENU_ENV,
    MAX_ENV_VALUE_BYTES, SHORTCUTS_ENV,
};

fn from_pairs(pairs: &[(&str, &str)]) -> Vec<&'static str> {
    disabled_from(|key: &str| {
        pairs
            .iter()
            .find(|(k, _)| *k == key)
            .map(|(_, v)| (*v).to_string())
    })
}

const ALL: [DesktopFeature; 2] = [DesktopFeature::Shortcuts, DesktopFeature::DockContextMenu];

#[test]
fn an_unset_environment_leaves_every_capability_on() {
    assert!(from_pairs(&[]).is_empty());
    for f in ALL {
        assert!(!disabled_for(f, None), "{f:?} must default to enabled");
    }
}

#[test]
fn the_word_disabled_switches_off_only_its_own_capability() {
    assert_eq!(
        from_pairs(&[(SHORTCUTS_ENV, "disabled")]),
        vec!["shortcuts"]
    );
    assert_eq!(
        from_pairs(&[(DOCK_CONTEXT_MENU_ENV, "disabled")]),
        vec!["dock-context-menu"]
    );
    assert_eq!(
        from_pairs(&[
            (SHORTCUTS_ENV, "disabled"),
            (DOCK_CONTEXT_MENU_ENV, "disabled")
        ]),
        vec!["shortcuts", "dock-context-menu"]
    );
}

#[test]
fn disabled_is_case_and_whitespace_insensitive() {
    for raw in ["DISABLED", "disabled", " Disabled ", "dIsAbLeD"] {
        assert!(
            disabled_for(DesktopFeature::Shortcuts, Some(raw)),
            "{raw} must disable"
        );
    }
}

#[test]
fn a_comma_list_disables_only_the_key_its_variable_owns() {
    assert!(disabled_for(DesktopFeature::Shortcuts, Some("shortcuts")));
    assert!(!disabled_for(
        DesktopFeature::Shortcuts,
        Some("dock-context-menu")
    ));
    assert!(disabled_for(
        DesktopFeature::DockContextMenu,
        Some("dock-context-menu")
    ));
    assert!(disabled_for(
        DesktopFeature::Shortcuts,
        Some(" shortcuts , other ")
    ));
    assert!(disabled_for(DesktopFeature::Shortcuts, Some("SHORTCUTS")));
    assert_eq!(
        from_pairs(&[(SHORTCUTS_ENV, "shortcuts")]),
        vec!["shortcuts"]
    );
    assert_eq!(
        from_pairs(&[(DOCK_CONTEXT_MENU_ENV, "dock-context-menu")]),
        vec!["dock-context-menu"]
    );
}

#[test]
fn a_key_named_in_the_wrong_variable_is_reported_not_silently_dropped() {
    assert_eq!(
        from_pairs(&[(SHORTCUTS_ENV, "dock-context-menu")]),
        Vec::<&str>::new()
    );
    assert_eq!(
        stray_vars(|key: &str| (key == SHORTCUTS_ENV).then(|| "dock-context-menu".to_string())),
        vec![SHORTCUTS_ENV]
    );
    assert!(
        stray_vars(|key: &str| (key == SHORTCUTS_ENV).then(|| "shortcuts".to_string())).is_empty()
    );
    assert!(
        stray_vars(|key: &str| (key == SHORTCUTS_ENV).then(|| "disabled".to_string())).is_empty()
    );
    assert!(stray_vars(|_: &str| None).is_empty());
}

#[test]
fn enabled_and_unrecognised_values_never_disable_anything() {
    for raw in ["enabled", "", "   ", "true", "0", "no", "shortcut", "dock"] {
        for f in ALL {
            assert!(
                !disabled_for(f, Some(raw)),
                "{raw:?} must not disable {f:?}"
            );
        }
    }
    assert!(from_pairs(&[
        (SHORTCUTS_ENV, "enabled"),
        (DOCK_CONTEXT_MENU_ENV, "nonsense")
    ])
    .is_empty());
}

#[test]
fn an_over_long_value_is_refused_rather_than_half_parsed() {
    let huge = "a".repeat(MAX_ENV_VALUE_BYTES + 1);
    assert!(!disabled_for(DesktopFeature::Shortcuts, Some(&huge)));
    let mut at_limit = String::from("shortcuts");
    while at_limit.len() < MAX_ENV_VALUE_BYTES {
        at_limit.push(',');
    }
    assert_eq!(at_limit.len(), MAX_ENV_VALUE_BYTES);
    assert!(disabled_for(DesktopFeature::Shortcuts, Some(&at_limit)));
    let over = format!("{at_limit},");
    assert_eq!(over.len(), MAX_ENV_VALUE_BYTES + 1);
    assert!(!disabled_for(DesktopFeature::Shortcuts, Some(&over)));
}

#[test]
fn the_wire_keys_are_the_strings_the_ui_uses() {
    assert_eq!(DesktopFeature::Shortcuts.key(), "shortcuts");
    assert_eq!(DesktopFeature::DockContextMenu.key(), "dock-context-menu");
    assert_eq!(
        DesktopFeature::Shortcuts.env_var(),
        "AMOS_DESKTOP_SHORTCUTS"
    );
    assert_eq!(
        DesktopFeature::DockContextMenu.env_var(),
        "AMOS_DOCK_CONTEXT_MENU"
    );
}
