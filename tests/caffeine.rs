use cosmic_ext_applet_caffeine::caffeine::Caffeine;
use cosmic_ext_applet_caffeine::service::{InhibitError, ScreenSaver};

#[test]
fn new_holds_no_grant() {
    assert!(!Caffeine::new().is_caffeinated());
    assert!(!Caffeine::default().is_caffeinated());
}

#[test]
fn granted_cookie_is_held() {
    let mut c = Caffeine::new();
    assert_eq!(c.accept_grant(Ok(7)), Ok(()));
    assert!(c.is_caffeinated());
}

#[test]
fn refused_inhibit_holds_nothing() {
    let mut c = Caffeine::new();
    assert_eq!(
        c.accept_grant(Err(InhibitError::InhibitionDenied)),
        Err(InhibitError::InhibitionDenied)
    );
    assert!(!c.is_caffeinated());
}

#[test]
fn release_clears_grant_on_service_error() {
    let mut c = Caffeine::new();
    c.accept_grant(Ok(3)).unwrap();
    assert_eq!(
        c.settle_release(Err(InhibitError::InhibitionDenied)),
        Err(InhibitError::InhibitionDenied)
    );
    assert!(!c.is_caffeinated());
    let mut d = Caffeine::new();
    d.accept_grant(Ok(4)).unwrap();
    assert_eq!(
        d.settle_release(Err(InhibitError::ServiceUnavailable)),
        Err(InhibitError::ServiceUnavailable)
    );
    assert!(!d.is_caffeinated());
}

#[test]
fn release_after_success_clears_grant() {
    let mut c = Caffeine::new();
    c.accept_grant(Ok(3)).unwrap();
    assert_eq!(c.settle_release(Ok(())), Ok(()));
    assert!(!c.is_caffeinated());
}

#[test]
fn acquire_while_held_is_a_no_op() {
    let mut c = Caffeine::new();
    c.accept_grant(Ok(11)).unwrap();
    let mut service = ScreenSaver::new();
    assert_eq!(c.caffeinate(&mut service), Ok(()));
    assert_eq!(c.caffeinate(&mut service), Ok(()));
    assert!(c.is_caffeinated());
}

#[test]
fn release_without_grant_succeeds() {
    let mut c = Caffeine::new();
    let mut service = ScreenSaver::new();
    assert_eq!(c.decaffeinate(&mut service), Ok(()));
    assert_eq!(c.cleanup(&mut service), Ok(()));
    assert!(!c.is_caffeinated());
}

#[test]
fn failed_acquire_fails_again_the_same_way() {
    let mut c = Caffeine::new();
    let mut service = ScreenSaver::new();
    let first = c.caffeinate(&mut service);
    assert_eq!(first.is_ok(), c.is_caffeinated());
    if first == Err(InhibitError::ServiceUnavailable) {
        assert_eq!(c.caffeinate(&mut service), Err(InhibitError::ServiceUnavailable));
        assert!(!c.is_caffeinated());
        assert_eq!(
            service.inhibit("x", "y"),
            Err(InhibitError::ServiceUnavailable)
        );
    } else {
        let _ = c.decaffeinate(&mut service);
        assert!(!c.is_caffeinated());
    }
}
