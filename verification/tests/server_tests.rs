use bmos::connection::{Connection, Interest};
use bmos::server::{BmosTcpServer, EventKind, ReadyAction, ReadyStage, MAX_CONNECTIONS, SERVER_TOKEN};

fn ev(readable: bool, writable: bool, error: bool, hup: bool) -> EventKind {
    EventKind { readable, writable, error, hup }
}

fn server_with_registered_connection() -> (BmosTcpServer, usize) {
    let mut s = BmosTcpServer::new();
    let t = s.accept().unwrap();
    s.connection_registered(t, true);
    (s, t)
}

#[test]
fn new_server_is_empty() {
    let s = BmosTcpServer::new();
    assert_eq!(s.token(), SERVER_TOKEN);
    assert_eq!(s.connection_count(), 0);
    assert!(s.connection(0).is_none());
}

#[test]
fn accept_makes_a_fresh_connection() {
    let mut s = BmosTcpServer::new();
    let t = s.accept().unwrap();
    assert_eq!(t, 0);
    let c = s.find_connection_by_token(t);
    assert_eq!(c, Connection::new(0));
    assert_eq!(c.interest, Interest { readable: false, hup: true });
    assert!(c.is_idle() && !c.is_reset());
    assert_eq!(s.accept(), Some(1));
    assert_eq!(s.connection_count(), 2);
}

#[test]
fn accept_stops_when_full() {
    let mut s = BmosTcpServer::new();
    for i in 0..MAX_CONNECTIONS {
        assert_eq!(s.accept(), Some(i));
    }
    assert_eq!(s.accept(), None);
    assert_eq!(s.connection_count(), MAX_CONNECTIONS);
}

#[test]
fn registration_outcomes() {
    let (s, t) = server_with_registered_connection();
    let c = s.find_connection_by_token(t);
    assert_eq!(c.interest, Interest { readable: true, hup: true });
    assert!(!c.is_idle());

    let mut s = BmosTcpServer::new();
    let t = s.accept().unwrap();
    s.connection_registered(t, false);
    assert!(s.connection(t).is_none());
    assert_eq!(s.connection_count(), 0);
}

#[test]
fn read_event_reads_then_idles() {
    let (mut s, t) = server_with_registered_connection();
    let e = ev(true, false, false, false);
    assert_eq!(s.ready(t, e, ReadyStage::Start), ReadyAction::Read);
    assert_eq!(s.ready(t, e, ReadyStage::Read(true)), ReadyAction::Done);
    let c = s.find_connection_by_token(t);
    assert!(c.is_idle() && !c.is_reset());
}

#[test]
fn failed_read_resets() {
    let (mut s, t) = server_with_registered_connection();
    let e = ev(true, false, false, false);
    assert_eq!(s.ready(t, e, ReadyStage::Start), ReadyAction::Read);
    assert_eq!(s.ready(t, e, ReadyStage::Read(false)), ReadyAction::Done);
    let c = s.find_connection_by_token(t);
    assert!(c.is_reset() && c.is_idle());
}

#[test]
fn error_and_hup_reset_at_once() {
    let (mut s, t) = server_with_registered_connection();
    assert_eq!(s.ready(t, ev(true, true, true, false), ReadyStage::Start), ReadyAction::Done);
    let c = s.find_connection_by_token(t);
    assert!(c.is_reset() && !c.is_idle());

    let (mut s, t) = server_with_registered_connection();
    assert_eq!(s.ready(t, ev(false, false, false, true), ReadyStage::Start), ReadyAction::Done);
    assert!(s.find_connection_by_token(t).is_reset());
}

#[test]
fn write_comes_before_read() {
    let (mut s, t) = server_with_registered_connection();
    let e = ev(true, true, false, false);
    assert_eq!(s.ready(t, e, ReadyStage::Start), ReadyAction::Write);
    assert_eq!(s.ready(t, e, ReadyStage::Written(true)), ReadyAction::Read);
    assert_eq!(s.ready(t, e, ReadyStage::Read(true)), ReadyAction::Done);
    assert!(s.find_connection_by_token(t).is_idle());
}

#[test]
fn failed_write_skips_the_read() {
    let (mut s, t) = server_with_registered_connection();
    let e = ev(true, true, false, false);
    assert_eq!(s.ready(t, e, ReadyStage::Start), ReadyAction::Write);
    assert_eq!(s.ready(t, e, ReadyStage::Written(false)), ReadyAction::Done);
    let c = s.find_connection_by_token(t);
    assert!(c.is_reset() && !c.is_idle());
}

#[test]
fn reset_connection_gets_no_write() {
    let (mut s, t) = server_with_registered_connection();
    s.mark_reset(t);
    assert_eq!(s.ready(t, ev(false, true, false, false), ReadyStage::Start), ReadyAction::Done);
}

#[test]
fn server_token_accepts() {
    let mut s = BmosTcpServer::new();
    let e = ev(true, false, false, false);
    assert_eq!(s.ready(SERVER_TOKEN, e, ReadyStage::Start), ReadyAction::Accept);
    assert_eq!(s.ready(SERVER_TOKEN, e, ReadyStage::Accepted), ReadyAction::Done);
    assert_eq!(s.connection_count(), 0);
}

#[test]
fn event_without_readiness_idles() {
    let (mut s, t) = server_with_registered_connection();
    assert_eq!(s.ready(t, ev(false, false, false, false), ReadyStage::Start), ReadyAction::Done);
    assert!(s.find_connection_by_token(t).is_idle());
}

#[test]
fn tick_plans_and_cleans_up() {
    let mut s = BmosTcpServer::new();
    for _ in 0..4 {
        let t = s.accept().unwrap();
        s.connection_registered(t, true);
    }
    s.mark_reset(2);
    let e = ev(false, false, false, false);
    assert_eq!(s.ready(1, e, ReadyStage::Start), ReadyAction::Done);
    assert_eq!(s.ready(3, e, ReadyStage::Start), ReadyAction::Done);
    let plan = s.tick();
    assert_eq!(plan.reset, vec![2]);
    assert_eq!(plan.reregister, vec![1, 3]);
    s.reregistered(1, true);
    s.reregistered(3, false);
    assert!(!s.find_connection_by_token(1).is_idle());
    assert!(s.find_connection_by_token(3).is_reset());
    let missing = s.remove_connections(&vec![2, 3, 7, 3]);
    assert_eq!(missing, vec![7, 3]);
    assert_eq!(s.connection_count(), 2);
    assert!(s.connection(0).is_some() && s.connection(1).is_some());
    let plan = s.tick();
    assert!(plan.reset.is_empty() && plan.reregister.is_empty());
    assert_eq!(s.accept(), Some(3));
}

#[test]
fn end_round_keeps_successes_and_drops_resets_and_refusals() {
    let mut s = BmosTcpServer::new();
    for _ in 0..5 {
        let t = s.accept().unwrap();
        s.connection_registered(t, true);
    }
    s.mark_reset(2);
    let e = ev(false, false, false, false);
    for t in [0usize, 1, 3] {
        assert_eq!(s.ready(t, e, ReadyStage::Start), ReadyAction::Done);
    }
    let plan = s.tick();
    assert_eq!(plan.reset, vec![2]);
    assert_eq!(plan.reregister, vec![0, 1, 3]);
    let removed = s.end_round(&plan, &vec![true, false, true]);
    assert_eq!(removed, vec![1, 2]);
    assert_eq!(s.connection_count(), 3);
    for t in [0usize, 3, 4] {
        let c = s.find_connection_by_token(t);
        assert!(!c.is_reset() && !c.is_idle());
    }
    assert!(s.connection(1).is_none() && s.connection(2).is_none());
    let plan = s.tick();
    assert!(plan.reset.is_empty() && plan.reregister.is_empty());
    assert_eq!(s.end_round(&plan, &vec![]), Vec::<usize>::new());
    assert_eq!(s.connection_count(), 3);
}
