use cosmic_ext_applet_caffeine::label::format_clock;
use cosmic_ext_applet_caffeine::timer::Timer;

#[test]
fn label_minutes_and_seconds() {
    let mut t = Timer::new();
    t.start(0, 125);
    assert_eq!(t.get_formatted_time(0), Some("02:05".to_string()));
}

#[test]
fn label_hours_minutes_and_seconds() {
    let mut t = Timer::new();
    t.start(0, 3725);
    assert_eq!(t.get_formatted_time(0), Some("01:02:05".to_string()));
}

#[test]
fn label_rounds_down_to_whole_seconds() {
    let mut t = Timer::new();
    t.start(1000, 125);
    assert_eq!(t.get_formatted_time(1500), Some("02:04".to_string()));
    assert_eq!(t.get_formatted_time(1001), Some("02:04".to_string()));
    assert_eq!(t.get_formatted_time(1000), Some("02:05".to_string()));
}

#[test]
fn label_after_deadline_reads_zero() {
    let mut t = Timer::new();
    t.start(0, 1);
    assert_eq!(t.get_formatted_time(5000), Some("00:00".to_string()));
}

#[test]
fn label_absent_without_deadline() {
    let t = Timer::new();
    assert_eq!(t.get_formatted_time(0), None);
    let d = Timer::default();
    assert!(!d.is_started());
}

#[test]
fn label_with_many_hours() {
    let mut t = Timer::new();
    t.start(0, 360_000);
    assert_eq!(t.get_formatted_time(0), Some("100:00:00".to_string()));
}

#[test]
fn clock_formats() {
    assert_eq!(format_clock(0), "00:00");
    assert_eq!(format_clock(59), "00:59");
    assert_eq!(format_clock(60), "01:00");
    assert_eq!(format_clock(3599), "59:59");
    assert_eq!(format_clock(3600), "01:00:00");
    assert_eq!(format_clock(36_610), "10:10:10");
}

#[test]
fn expiry_edge_reads_once() {
    let mut t = Timer::new();
    t.start(0, 1);
    t.tick(2000);
    assert!(!t.is_started());
    assert!(t.timer_just_ended());
    assert!(!t.timer_just_ended());
}

#[test]
fn tick_at_deadline_does_not_expire() {
    let mut t = Timer::new();
    t.start(0, 1);
    t.tick(1000);
    assert!(t.is_started());
    assert!(!t.timer_just_ended());
    t.tick(1001);
    assert!(t.timer_just_ended());
}

#[test]
fn zero_duration_expires_on_next_tick() {
    let mut t = Timer::new();
    t.start(5000, 0);
    assert!(t.is_started());
    t.tick(5001);
    assert!(t.timer_just_ended());
}

#[test]
fn cancel_does_not_raise_edge() {
    let mut t = Timer::new();
    t.start(0, 1);
    t.cancel();
    assert!(!t.is_started());
    t.tick(5000);
    assert!(!t.timer_just_ended());
}

#[test]
fn start_replaces_deadline() {
    let mut t = Timer::new();
    t.start(0, 60);
    t.start(0, 1);
    t.tick(2000);
    assert!(t.timer_just_ended());
}

#[test]
fn deadline_beyond_clock_never_expires() {
    let mut t = Timer::new();
    t.start(u64::MAX - 5, 100);
    assert!(t.is_started());
    t.tick(u64::MAX);
    assert!(t.is_started());
    assert!(!t.timer_just_ended());
    let mut big = Timer::new();
    big.start(0, u64::MAX);
    big.tick(u64::MAX);
    assert!(big.is_started());
}
