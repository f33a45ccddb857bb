use wifi_qr::event::Event;
use wifi_qr::gesture::{Action, ButtonState, GestureClassifier};

fn press(c: &mut GestureClassifier, down: u64, up: u64) -> Option<Action> {
    assert_eq!(c.handle(Event::KeyDown, down), None);
    c.handle(Event::KeyUp, up)
}

#[test]
fn deliberate_hold_shows_qr_at_bounds() {
    for d in [1500u64, 3000, 6000] {
        let mut c = GestureClassifier::new();
        assert_eq!(press(&mut c, 10_000, 10_000 + d), Some(Action::ShowQr));
        assert_eq!(c.state, ButtonState::Idle);
    }
}

#[test]
fn other_holds_are_ignored_and_clear_history() {
    for d in [501u64, 1499, 6001, 60_000] {
        let mut c = GestureClassifier::new();
        assert_eq!(press(&mut c, 1000, 1100), Some(Action::Ignore));
        assert_eq!(c.history, vec![1100]);
        assert_eq!(press(&mut c, 2000, 2000 + d), Some(Action::Ignore));
        assert!(c.history.is_empty());
    }
}

#[test]
fn quick_press_boundary_is_inclusive() {
    let mut c = GestureClassifier::new();
    assert_eq!(press(&mut c, 0, 500), Some(Action::Ignore));
    assert_eq!(c.history, vec![500]);
}

#[test]
fn triple_quick_press_exits() {
    let mut c = GestureClassifier::new();
    assert_eq!(press(&mut c, 0, 100), Some(Action::Ignore));
    assert_eq!(press(&mut c, 600, 700), Some(Action::Ignore));
    assert_eq!(press(&mut c, 1900, 2100), Some(Action::Exit));
}

#[test]
fn triple_press_window_edge_still_exits() {
    let mut c = GestureClassifier::new();
    assert_eq!(press(&mut c, 0, 100), Some(Action::Ignore));
    assert_eq!(press(&mut c, 1000, 1100), Some(Action::Ignore));
    assert_eq!(press(&mut c, 2000, 2100), Some(Action::Exit));
}

#[test]
fn slow_triple_press_restarts_count() {
    let mut c = GestureClassifier::new();
    assert_eq!(press(&mut c, 0, 100), Some(Action::Ignore));
    assert_eq!(press(&mut c, 1000, 1100), Some(Action::Ignore));
    assert_eq!(press(&mut c, 2000, 2101), Some(Action::Ignore));
    assert_eq!(c.history, vec![1100, 2101]);
    assert_eq!(press(&mut c, 2500, 2600), Some(Action::Exit));
}

#[test]
fn long_hold_breaks_triple_press() {
    let mut c = GestureClassifier::new();
    assert_eq!(press(&mut c, 0, 100), Some(Action::Ignore));
    assert_eq!(press(&mut c, 200, 300), Some(Action::Ignore));
    assert_eq!(press(&mut c, 400, 1200), Some(Action::Ignore));
    assert_eq!(press(&mut c, 1300, 1400), Some(Action::Ignore));
}

#[test]
fn key_down_while_pressed_is_debounced() {
    let mut c = GestureClassifier::new();
    assert_eq!(c.handle(Event::KeyDown, 100), None);
    assert_eq!(c.handle(Event::KeyDown, 900), None);
    assert_eq!(c.state, ButtonState::Pressed { since: 100 });
    assert_eq!(c.handle(Event::KeyUp, 1600), Some(Action::ShowQr));
}

#[test]
fn key_up_while_idle_does_nothing() {
    let mut c = GestureClassifier::new();
    assert_eq!(c.handle(Event::KeyUp, 100), None);
    assert_eq!(c.state, ButtonState::Idle);
    assert!(c.history.is_empty());
}

fn record(value: i32) -> Vec<u8> {
    let mut r = vec![0u8; 16];
    r[8] = 1;
    r[12..16].copy_from_slice(&value.to_le_bytes());
    r
}

#[test]
fn raw_records_drive_the_classifier() {
    let mut c = GestureClassifier::new();
    assert_eq!(c.handle_record(&record(1), 1000), None);
    assert_eq!(c.handle_record(&record(2), 1500), None);
    assert_eq!(c.state, ButtonState::Pressed { since: 1000 });
    assert_eq!(c.handle_record(&record(0), 3000), Some(Action::ShowQr));
    assert_eq!(c.state, ButtonState::Idle);
    assert!(c.history.is_empty());
    assert_eq!(c.handle_record(&record(0)[..10], 3100), None);
}
