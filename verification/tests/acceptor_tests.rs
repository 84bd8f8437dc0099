use validator_protocol::Error;
use validator_protocol::acceptor::{Acceptor, AcceptorEvent, AcceptorPhase};

#[test]
fn bind_failure_keeps_the_acceptor_idle() {
    let mut a = Acceptor::new();
    assert_eq!(a.phase(), AcceptorPhase::Idle);
    let r = a.start(false);
    assert_eq!(r.unwrap_err(), Error::OperationFailed);
    assert_eq!(a.phase(), AcceptorPhase::Idle);
}

#[test]
fn successful_bind_starts_listening() {
    let mut a = Acceptor::new();
    a.start(true).unwrap();
    assert_eq!(a.phase(), AcceptorPhase::Listening);
}

#[test]
fn connections_fan_out_to_every_subscriber_in_order() {
    let mut a = Acceptor::new();
    let s0 = a.subscribe();
    a.start(true).unwrap();
    a.notify_connection(100);
    // A later subscriber only sees events from its subscription on.
    let s1 = a.subscribe();
    a.notify_connection(101);

    assert_eq!(a.next_event(s0), Some(AcceptorEvent::Connection(100)));
    assert_eq!(a.next_event(s0), Some(AcceptorEvent::Connection(101)));
    assert_eq!(a.next_event(s0), None);

    assert_eq!(a.next_event(s1), Some(AcceptorEvent::Connection(101)));
    assert_eq!(a.next_event(s1), None);
}

#[test]
fn accept_loop_failure_is_published_to_all_subscribers() {
    let mut a = Acceptor::new();
    let s0 = a.subscribe();
    let s1 = a.subscribe();
    a.start(true).unwrap();
    a.handle_stop(Error::ServiceStopped);
    assert_eq!(a.phase(), AcceptorPhase::Stopped);
    assert_eq!(a.next_event(s0), Some(AcceptorEvent::Failed(Error::ServiceStopped)));
    assert_eq!(a.next_event(s1), Some(AcceptorEvent::Failed(Error::ServiceStopped)));
}

#[test]
fn stop_is_idempotent() {
    let mut a = Acceptor::new();
    a.start(true).unwrap();
    a.stop();
    assert_eq!(a.phase(), AcceptorPhase::Stopped);
    a.stop();
    assert_eq!(a.phase(), AcceptorPhase::Stopped);
    assert_eq!(a.subscriber_count(), 0);
}
