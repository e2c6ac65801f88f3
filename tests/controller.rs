use cosmic_ext_applet_caffeine::controller::{Controller, Event};
use cosmic_ext_applet_caffeine::service::{InhibitError, ScreenSaver};

#[test]
fn idle_controller() {
    let c = Controller::new();
    assert!(!c.is_caffeinated());
    assert!(!c.is_started());
    assert_eq!(c.remaining_label(0), None);
}

#[test]
fn idle_events_need_no_service() {
    let mut c = Controller::new();
    let mut service = ScreenSaver::new();
    assert_eq!(c.handle(Event::Tick, 1000, &mut service), Ok(()));
    assert_eq!(c.handle(Event::Toggle(false), 2000, &mut service), Ok(()));
    assert_eq!(c.handle(Event::Shutdown, 3000, &mut service), Ok(()));
    assert!(!c.is_caffeinated());
}

#[test]
fn failed_toggle_on_stays_idle() {
    let mut c = Controller::new();
    let mut service = ScreenSaver::new();
    let r = c.handle(Event::Toggle(true), 0, &mut service);
    assert_eq!(r.is_ok(), c.is_caffeinated());
    assert!(!c.is_started());
    if r == Err(InhibitError::ServiceUnavailable) {
        assert_eq!(
            c.handle(Event::Toggle(true), 0, &mut service),
            Err(InhibitError::ServiceUnavailable)
        );
        assert!(!c.is_caffeinated());
    }
    let _ = c.handle(Event::Toggle(false), 0, &mut service);
    assert!(!c.is_caffeinated());
}

#[test]
fn duration_is_bounded_or_idle() {
    let mut c = Controller::new();
    let mut service = ScreenSaver::new();
    let r = c.handle(Event::Duration(125), 0, &mut service);
    if r.is_ok() {
        assert!(c.is_caffeinated());
        assert_eq!(c.remaining_label(0), Some("02:05".to_string()));
    } else {
        assert!(!c.is_caffeinated());
        assert!(!c.is_started());
        assert_eq!(c.remaining_label(0), None);
    }
    let _ = c.handle(Event::Toggle(false), 0, &mut service);
    assert!(!c.is_started());
    assert!(!c.is_caffeinated());
}

#[test]
fn toggle_on_clears_running_deadline() {
    let mut c = Controller::new();
    let mut service = ScreenSaver::new();
    let _ = c.handle(Event::Duration(60), 0, &mut service);
    let on = c.handle(Event::Toggle(true), 1000, &mut service);
    assert!(!c.is_started());
    let held = c.is_caffeinated();
    assert_eq!(on.is_ok(), held);
    assert_eq!(c.handle(Event::Tick, 120_000, &mut service), Ok(()));
    assert_eq!(c.is_caffeinated(), held);
    let _ = c.handle(Event::Toggle(false), 0, &mut service);
}

#[test]
fn zero_duration_ends_at_next_tick() {
    let mut c = Controller::new();
    let mut service = ScreenSaver::new();
    let _ = c.handle(Event::Duration(0), 5000, &mut service);
    let _ = c.handle(Event::Tick, 5001, &mut service);
    assert!(!c.is_caffeinated());
    assert!(!c.is_started());
}
