use recoilly::recoil::{Point, RecoilConfig, RecoilState};
use recoilly::store::ConfigStore;
use recoilly::trigger::{Button, InputEvent, InputMonitor};

fn selected(active: bool) -> ConfigStore {
    let mut store = ConfigStore::new();
    store.set(RecoilState {
        points: vec![Point { x: 0, y: 0 }, Point { x: 10_000, y: 20_000 }],
        config: RecoilConfig { sensitivity: 1000, rpm: 600, smooth_steps: 10 },
        active,
    });
    store
}

const PRESS_PRIMARY: InputEvent = InputEvent::Press(Button::Primary);
const PRESS_SECONDARY: InputEvent = InputEvent::Press(Button::Secondary);
const RELEASE_PRIMARY: InputEvent = InputEvent::Release(Button::Primary);
const RELEASE_SECONDARY: InputEvent = InputEvent::Release(Button::Secondary);

#[test]
fn a_new_monitor_holds_nothing() {
    let monitor = InputMonitor::new();
    assert_eq!(
        monitor,
        InputMonitor { secondary_held: false, primary_held: false, firing: false }
    );
    assert!(!monitor.is_firing());
}

#[test]
fn primary_press_with_secondary_held_starts_a_run() {
    let store = selected(true);
    let mut monitor = InputMonitor::new();
    assert!(monitor.on_event(PRESS_SECONDARY, &store).is_none());
    let run = monitor.on_event(PRESS_PRIMARY, &store).expect("a run starts");
    assert_eq!(run.points, vec![Point { x: 0, y: 0 }, Point { x: 10_000, y: 20_000 }]);
    assert_eq!(run.config, RecoilConfig { sensitivity: 1000, rpm: 600, smooth_steps: 10 });
    assert!(run.active);
    assert_eq!(monitor, InputMonitor { secondary_held: true, primary_held: true, firing: true });
}

#[test]
fn primary_press_alone_starts_nothing() {
    let store = selected(true);
    let mut monitor = InputMonitor::new();
    assert!(monitor.on_event(PRESS_PRIMARY, &store).is_none());
    assert_eq!(monitor, InputMonitor { secondary_held: false, primary_held: true, firing: false });
}

#[test]
fn a_second_press_starts_no_second_run() {
    let store = selected(true);
    let mut monitor = InputMonitor::new();
    monitor.on_event(PRESS_SECONDARY, &store);
    assert!(monitor.on_event(PRESS_PRIMARY, &store).is_some());
    for _ in 0..1000 {
        assert!(monitor.on_event(PRESS_PRIMARY, &store).is_none());
        assert!(monitor.is_firing());
    }
    assert!(monitor.on_event(PRESS_SECONDARY, &store).is_none());
    assert!(monitor.is_firing());
}

#[test]
fn releasing_the_secondary_button_interrupts_the_run() {
    let store = selected(true);
    let mut monitor = InputMonitor::new();
    monitor.on_event(PRESS_SECONDARY, &store);
    assert!(monitor.on_event(PRESS_PRIMARY, &store).is_some());
    assert!(monitor.on_event(RELEASE_SECONDARY, &store).is_none());
    assert_eq!(monitor, InputMonitor { secondary_held: false, primary_held: true, firing: false });
}

#[test]
fn releasing_the_primary_button_stops_the_run() {
    let store = selected(true);
    let mut monitor = InputMonitor::new();
    monitor.on_event(PRESS_SECONDARY, &store);
    assert!(monitor.on_event(PRESS_PRIMARY, &store).is_some());
    assert!(monitor.on_event(RELEASE_PRIMARY, &store).is_none());
    assert_eq!(monitor, InputMonitor { secondary_held: true, primary_held: false, firing: false });
}

#[test]
fn a_run_can_start_again_after_a_release() {
    let store = selected(true);
    let mut monitor = InputMonitor::new();
    monitor.on_event(PRESS_SECONDARY, &store);
    assert!(monitor.on_event(PRESS_PRIMARY, &store).is_some());
    monitor.on_event(RELEASE_PRIMARY, &store);
    assert!(monitor.on_event(PRESS_PRIMARY, &store).is_some());
    assert!(monitor.is_firing());
}

#[test]
fn an_empty_store_starts_nothing() {
    let store = ConfigStore::new();
    let mut monitor = InputMonitor::new();
    monitor.on_event(PRESS_SECONDARY, &store);
    assert!(monitor.on_event(PRESS_PRIMARY, &store).is_none());
    assert_eq!(monitor, InputMonitor { secondary_held: true, primary_held: true, firing: false });
}

#[test]
fn an_inactive_pattern_starts_nothing() {
    let store = selected(false);
    let mut monitor = InputMonitor::new();
    monitor.on_event(PRESS_SECONDARY, &store);
    assert!(monitor.on_event(PRESS_PRIMARY, &store).is_none());
    assert!(!monitor.is_firing());
}

#[test]
fn other_events_change_nothing() {
    let store = selected(true);
    let mut monitor = InputMonitor { secondary_held: true, primary_held: false, firing: false };
    for event in [
        InputEvent::Other,
        InputEvent::Press(Button::Other),
        InputEvent::Release(Button::Other),
    ] {
        assert!(monitor.on_event(event, &store).is_none());
        assert_eq!(
            monitor,
            InputMonitor { secondary_held: true, primary_held: false, firing: false }
        );
    }
}

#[test]
fn a_run_plays_the_snapshot_taken_at_its_start() {
    let mut store = selected(true);
    let mut monitor = InputMonitor::new();
    monitor.on_event(PRESS_SECONDARY, &store);
    let run = monitor.on_event(PRESS_PRIMARY, &store).unwrap();
    store.set(RecoilState {
        points: vec![],
        config: RecoilConfig { sensitivity: 1, rpm: 1, smooth_steps: 1 },
        active: false,
    });
    assert_eq!(run.points.len(), 2);
    assert_eq!(run.config.rpm, 600);
}

#[test]
fn only_a_primary_press_while_armed_and_idle_is_a_trigger() {
    let armed = InputMonitor { secondary_held: true, primary_held: false, firing: false };
    assert!(armed.is_trigger(PRESS_PRIMARY));
    assert!(!armed.is_trigger(PRESS_SECONDARY));
    assert!(!armed.is_trigger(RELEASE_PRIMARY));
    assert!(!armed.is_trigger(RELEASE_SECONDARY));
    assert!(!armed.is_trigger(InputEvent::Other));
    assert!(!armed.is_trigger(InputEvent::Press(Button::Other)));
    let firing = InputMonitor { secondary_held: true, primary_held: true, firing: true };
    assert!(!firing.is_trigger(PRESS_PRIMARY));
    assert!(!InputMonitor::new().is_trigger(PRESS_PRIMARY));
}

#[test]
fn events_off_the_trigger_need_no_store() {
    let store = selected(true);
    for start in [
        InputMonitor { secondary_held: false, primary_held: false, firing: false },
        InputMonitor { secondary_held: true, primary_held: true, firing: true },
        InputMonitor { secondary_held: false, primary_held: true, firing: false },
    ] {
        for event in [
            PRESS_PRIMARY,
            PRESS_SECONDARY,
            RELEASE_PRIMARY,
            RELEASE_SECONDARY,
            InputEvent::Other,
        ] {
            assert!(!start.is_trigger(event));
            let mut with_store = start;
            let mut without = start;
            assert!(with_store.on_event(event, &store).is_none());
            without.on_event_without_store(event);
            assert_eq!(with_store, without);
        }
    }
}

#[test]
fn a_trigger_without_the_store_starts_nothing() {
    let mut monitor = InputMonitor { secondary_held: true, primary_held: false, firing: false };
    monitor.on_event_without_store(PRESS_PRIMARY);
    assert_eq!(monitor, InputMonitor { secondary_held: true, primary_held: true, firing: false });
}
