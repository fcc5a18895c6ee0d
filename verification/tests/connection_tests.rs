use bmos::connection::{Connection, Interest};

#[test]
fn fresh_connection() {
    let c = Connection::new(5);
    assert_eq!(c.token, 5);
    assert_eq!(c.interest, Interest { readable: false, hup: true });
    assert!(c.is_idle());
    assert!(!c.is_reset());
    assert_eq!(c.registration_interest(), Interest { readable: true, hup: true });
    assert_eq!(c.reregistration_interest(), Interest { readable: false, hup: true });
}

#[test]
fn register_and_reregister() {
    let mut c = Connection::new(1);
    c.register(false);
    assert_eq!(c.interest, Interest { readable: true, hup: true });
    assert!(c.is_idle());
    c.register(true);
    assert!(!c.is_idle());
    c.mark_idle();
    assert!(c.is_idle());
    c.reregister(false);
    assert!(c.is_idle());
    c.reregister(true);
    assert!(!c.is_idle());
    assert_eq!(c.reregistration_interest(), Interest { readable: true, hup: true });
}

#[test]
fn mark_reset_sticks() {
    let mut c = Connection::new(1);
    c.mark_reset();
    assert!(c.is_reset());
    c.mark_idle();
    assert!(c.is_reset());
}
