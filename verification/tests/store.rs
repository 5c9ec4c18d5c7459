use recoilly::hotkey::{ActiveToggle, ToggleOutcome};
use recoilly::recoil::{Point, RecoilConfig, RecoilState};
use recoilly::store::ConfigStore;
use recoilly::{AppState, Payload};

fn state(rpm: u64, active: bool) -> RecoilState {
    RecoilState {
        points: vec![Point { x: 1, y: 2 }, Point { x: 3, y: 4 }],
        config: RecoilConfig { sensitivity: 1500, rpm, smooth_steps: 8 },
        active,
    }
}

fn payload(id: &str, rpm: u64) -> Payload {
    Payload {
        id: id.to_string(),
        points: vec![Point { x: 0, y: 0 }, Point { x: 500, y: -250 }],
        sensitivity: 1250,
        steps: 6,
        rpm,
        image: format!("{id}.png"),
    }
}

#[test]
fn the_store_starts_empty() {
    assert!(ConfigStore::new().get().is_none());
}

#[test]
fn set_replaces_the_whole_value() {
    let mut store = ConfigStore::new();
    store.set(state(600, true));
    store.set(state(750, false));
    let held = store.get().unwrap();
    assert_eq!(held.points, vec![Point { x: 1, y: 2 }, Point { x: 3, y: 4 }]);
    assert_eq!(held.config, RecoilConfig { sensitivity: 1500, rpm: 750, smooth_steps: 8 });
    assert!(!held.active);
}

#[test]
fn get_hands_out_a_snapshot() {
    let mut store = ConfigStore::new();
    store.set(state(600, true));
    let mut snapshot = store.get().unwrap();
    snapshot.points.clear();
    snapshot.active = false;
    let held = store.get().unwrap();
    assert_eq!(held.points.len(), 2);
    assert!(held.active);
}

#[test]
fn toggle_active_flips_the_flag_in_place() {
    let mut store = ConfigStore::new();
    store.set(state(600, true));
    assert_eq!(store.toggle_active(), Some(false));
    assert!(!store.get().unwrap().active);
    assert_eq!(store.toggle_active(), Some(true));
    let held = store.get().unwrap();
    assert!(held.active);
    assert_eq!(held.config.rpm, 600);
    assert_eq!(held.points.len(), 2);
}

#[test]
fn toggle_active_reports_that_nothing_is_selected() {
    let mut store = ConfigStore::new();
    assert_eq!(store.toggle_active(), None);
    assert!(store.get().is_none());
}

#[test]
fn a_new_hotkey_was_never_pressed() {
    assert_eq!(ActiveToggle::new(), ActiveToggle { last_toggle: None });
}

#[test]
fn the_hotkey_is_debounced() {
    let mut store = ConfigStore::new();
    store.set(state(600, true));
    let mut hotkey = ActiveToggle { last_toggle: Some(0) };
    assert_eq!(hotkey.press(299, &mut store), ToggleOutcome::Debounced);
    assert_eq!(hotkey.press(300, &mut store), ToggleOutcome::Active(false));
    assert_eq!(hotkey.press(301, &mut store), ToggleOutcome::Debounced);
    assert_eq!(hotkey.press(599, &mut store), ToggleOutcome::Debounced);
    assert!(!store.get().unwrap().active);
    assert_eq!(hotkey.press(600, &mut store), ToggleOutcome::Active(true));
    assert_eq!(hotkey.last_toggle, Some(600));
}

#[test]
fn the_first_press_of_the_hotkey_takes_effect() {
    let mut store = ConfigStore::new();
    store.set(state(600, true));
    let mut hotkey = ActiveToggle::new();
    assert_eq!(hotkey.press(100, &mut store), ToggleOutcome::Active(false));
    assert_eq!(hotkey.press(200, &mut store), ToggleOutcome::Debounced);
    assert!(!store.get().unwrap().active);
    assert_eq!(hotkey.press(400, &mut store), ToggleOutcome::Active(true));
    assert!(store.get().unwrap().active);
    assert_eq!(hotkey.last_toggle, Some(400));
}

#[test]
fn the_hotkey_reports_that_nothing_is_selected() {
    let mut store = ConfigStore::new();
    let mut hotkey = ActiveToggle::new();
    assert_eq!(hotkey.press(1000, &mut store), ToggleOutcome::NothingSelected);
    assert_eq!(hotkey.press(1100, &mut store), ToggleOutcome::Debounced);
    assert_eq!(hotkey.press(1300, &mut store), ToggleOutcome::NothingSelected);
    assert!(store.get().is_none());
}

#[test]
fn the_hotkey_and_the_overlay_are_debounced_apart() {
    let mut store = ConfigStore::new();
    store.set(state(600, true));
    let mut hotkey = ActiveToggle::new();
    let mut overlay = recoilly::overlay::Overlay::new();
    assert_eq!(hotkey.press(50, &mut store), ToggleOutcome::Active(false));
    assert_eq!(
        overlay.toggle_overlay(60),
        recoilly::overlay::OverlayAction::CaptureAndShow
    );
    assert_eq!(hotkey.press(70, &mut store), ToggleOutcome::Debounced);
}

#[test]
fn a_new_app_state_is_empty() {
    let app = AppState::new();
    assert!(app.payloads.is_empty());
    assert!(app.recoil_state.get().is_none());
}

#[test]
fn set_current_selects_by_identifier() {
    let mut app = AppState::new();
    app.load_payloads(vec![payload("ak47", 600), payload("m4a1", 666), payload("ak47", 1)]);
    assert!(app.set_current(&"m4a1".to_string()));
    let current = app.recoil_state.get().unwrap();
    assert_eq!(current.points, vec![Point { x: 0, y: 0 }, Point { x: 500, y: -250 }]);
    assert_eq!(current.config, RecoilConfig { sensitivity: 1250, rpm: 666, smooth_steps: 6 });
    assert!(current.active);
    assert_eq!(app.payloads.len(), 3);
}

#[test]
fn set_current_takes_the_first_of_equal_identifiers() {
    let mut app = AppState::new();
    app.load_payloads(vec![payload("ak47", 600), payload("m4a1", 666), payload("ak47", 1)]);
    assert!(app.set_current(&"ak47".to_string()));
    assert_eq!(app.recoil_state.get().unwrap().config.rpm, 600);
}

#[test]
fn set_current_with_an_unknown_identifier_keeps_the_store() {
    let mut app = AppState::new();
    app.load_payloads(vec![payload("ak47", 600)]);
    assert!(!app.set_current(&"famas".to_string()));
    assert!(app.recoil_state.get().is_none());
    assert!(app.set_current(&"ak47".to_string()));
    assert!(!app.set_current(&"AK47".to_string()));
    assert_eq!(app.recoil_state.get().unwrap().config.rpm, 600);
}

#[test]
fn set_current_makes_the_pattern_active_again() {
    let mut app = AppState::new();
    app.load_payloads(vec![payload("ak47", 600)]);
    app.set_current(&"ak47".to_string());
    assert_eq!(app.recoil_state.toggle_active(), Some(false));
    app.set_current(&"ak47".to_string());
    assert!(app.recoil_state.get().unwrap().active);
}

#[test]
fn load_payloads_replaces_the_catalogue_and_keeps_the_store() {
    let mut app = AppState::new();
    app.load_payloads(vec![payload("ak47", 600), payload("m4a1", 666)]);
    app.set_current(&"ak47".to_string());
    app.load_payloads(vec![payload("famas", 1100)]);
    assert_eq!(app.payloads.len(), 1);
    assert_eq!(app.payloads[0].id, "famas");
    assert_eq!(app.payloads[0].image, "famas.png");
    assert_eq!(app.recoil_state.get().unwrap().config.rpm, 600);
    assert!(!app.set_current(&"ak47".to_string()));
}

#[test]
fn points_are_copied_in_order() {
    let points = vec![Point { x: 3, y: -3 }, Point { x: 0, y: 9 }, Point { x: 3, y: -3 }];
    assert_eq!(recoilly::recoil::copy_points(&points), points);
    assert!(recoilly::recoil::copy_points(&Vec::new()).is_empty());
}

#[test]
fn a_cloned_state_is_equal_and_separate() {
    let held = state(900, false);
    let mut copy = held.clone();
    assert_eq!(copy.points, held.points);
    assert_eq!(copy.config, held.config);
    assert_eq!(copy.active, held.active);
    copy.points.push(Point { x: 0, y: 0 });
    assert_eq!(held.points.len(), 2);
}

#[test]
fn a_cloned_payload_holds_the_same() {
    let held = payload("ak47", 600);
    let mut copy = held.clone();
    assert_eq!(copy.id, held.id);
    assert_eq!(copy.points, held.points);
    assert_eq!(copy.sensitivity, held.sensitivity);
    assert_eq!(copy.steps, held.steps);
    assert_eq!(copy.rpm, held.rpm);
    assert_eq!(copy.image, held.image);
    copy.points.clear();
    copy.id.push('x');
    assert_eq!(held.points.len(), 2);
    assert_eq!(held.id, "ak47");
}
