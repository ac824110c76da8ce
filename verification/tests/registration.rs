use dirtio::io::driver::{Delivery, Driver};
use dirtio::io::event::{Event, Interest};
use dirtio::io::registration::{IoAction, IoInput, Ready, Registration};

fn event(token: usize, readable: bool, writable: bool) -> Event {
    Event { token, readable, writable }
}

#[test]
fn interest_directions() {
    assert!(Interest::Readable.is_readable());
    assert!(!Interest::Readable.is_writable());
    assert!(!Interest::Writable.is_readable());
    assert!(Interest::Writable.is_writable());
    assert!(Interest::Both.is_readable());
    assert!(Interest::Both.is_writable());
}

#[test]
fn interest_from_directions() {
    assert_eq!(Interest::from_directions(true, false), Some(Interest::Readable));
    assert_eq!(Interest::from_directions(false, true), Some(Interest::Writable));
    assert_eq!(Interest::from_directions(true, true), Some(Interest::Both));
    assert_eq!(Interest::from_directions(false, false), None);
}

#[test]
fn new_ready_satisfies_nothing() {
    let r = Ready::new();
    assert_eq!(r, Ready { read: false, write: false });
    assert!(!r.ready(Interest::Readable));
    assert!(!r.ready(Interest::Writable));
    assert!(!r.ready(Interest::Both));
}

#[test]
fn combined_interest_needs_both_bits() {
    let mut r = Ready::new();
    r.set(&event(0, true, false));
    assert!(r.ready(Interest::Readable));
    assert!(!r.ready(Interest::Writable));
    assert!(!r.ready(Interest::Both));
    r.set(&event(0, false, true));
    assert!(r.ready(Interest::Both));
    assert_eq!(r, Ready { read: true, write: true });
}

#[test]
fn set_never_clears_a_bit() {
    let mut r = Ready { read: true, write: true };
    r.set(&event(0, false, false));
    assert_eq!(r, Ready { read: true, write: true });
}

#[test]
fn clear_keeps_the_other_direction() {
    let mut r = Ready { read: true, write: true };
    r.clear(Interest::Readable);
    assert_eq!(r, Ready { read: false, write: true });
    let mut r = Ready { read: true, write: true };
    r.clear(Interest::Writable);
    assert_eq!(r, Ready { read: true, write: false });
    let mut r = Ready { read: true, write: true };
    r.clear(Interest::Both);
    assert_eq!(r, Ready { read: false, write: false });
}

#[test]
fn registration_starts_not_ready() {
    let mut d = Driver::new();
    let reg = Registration::new(&mut d, 42).unwrap();
    assert_eq!(reg.readiness(), Ready { read: false, write: false });
    assert_eq!(d.channel(reg.token()), Some(42));
}

#[test]
fn io_waits_for_an_event_then_attempts() {
    let mut d = Driver::new();
    let mut reg = Registration::new(&mut d, 1).unwrap();
    assert_eq!(reg.advance(Interest::Readable, IoInput::Start), IoAction::Receive);
    let wrong_direction = event(reg.token(), false, true);
    assert_eq!(
        reg.advance(Interest::Readable, IoInput::Received(wrong_direction)),
        IoAction::Receive
    );
    let right_direction = event(reg.token(), true, false);
    assert_eq!(
        reg.advance(Interest::Readable, IoInput::Received(right_direction)),
        IoAction::Attempt
    );
    assert_eq!(reg.readiness(), Ready { read: true, write: true });
    // Readiness stays until the system call says otherwise.
    assert_eq!(reg.advance(Interest::Readable, IoInput::Start), IoAction::Attempt);
}

#[test]
fn readiness_drop_on_would_block() {
    let mut d = Driver::new();
    let mut reg = Registration::new(&mut d, 1).unwrap();
    let token = reg.token();
    assert_eq!(
        reg.advance(Interest::Writable, IoInput::Received(event(token, true, true))),
        IoAction::Attempt
    );
    // The write would block: the write bit is cleared and the operation
    // suspends until a new event arrives; the read bit is untouched.
    assert_eq!(reg.advance(Interest::Writable, IoInput::Blocked), IoAction::Receive);
    assert_eq!(reg.readiness(), Ready { read: true, write: false });
    assert_eq!(reg.advance(Interest::Writable, IoInput::Start), IoAction::Receive);
    assert_eq!(reg.advance(Interest::Readable, IoInput::Start), IoAction::Attempt);
    assert_eq!(
        reg.advance(Interest::Writable, IoInput::Received(event(token, false, true))),
        IoAction::Attempt
    );
}

#[test]
fn clear_readiness_clears_named_directions() {
    let mut d = Driver::new();
    let mut reg = Registration::new(&mut d, 1).unwrap();
    let token = reg.token();
    reg.advance(Interest::Both, IoInput::Received(event(token, true, true)));
    reg.clear_readiness(Interest::Readable);
    assert_eq!(reg.readiness(), Ready { read: false, write: true });
    assert_eq!(reg.token(), token);
    reg.clear_readiness(Interest::Both);
    assert_eq!(reg.readiness(), Ready { read: false, write: false });
}

#[test]
fn source_dropped_with_pending_events_frees_its_slot() {
    let mut d = Driver::new();
    let reg = Registration::new(&mut d, 9).unwrap();
    let token = reg.token();
    // Events are on their way to the source when it goes away.
    let batch = vec![event(token, true, false), event(token, false, true)];
    assert_eq!(d.dispatch(&batch).len(), 2);
    assert!(reg.deregister(&mut d));
    assert_eq!(d.channel(token), None);
    assert_eq!(d.dispatch(&batch), Vec::<Delivery>::new());
    assert!(!reg.deregister(&mut d));
    let next = Registration::new(&mut d, 10).unwrap();
    assert_eq!(d.channel(next.token()), Some(10));
}

#[test]
fn registrations_have_unique_tokens() {
    let mut d = Driver::new();
    let a = Registration::new(&mut d, 1).unwrap();
    let b = Registration::new(&mut d, 2).unwrap();
    assert_ne!(a.token(), b.token());
    assert!(a.deregister(&mut d));
    let c = Registration::new(&mut d, 3).unwrap();
    assert_ne!(c.token(), b.token());
    assert_eq!(d.channel(b.token()), Some(2));
    assert_eq!(d.channel(c.token()), Some(3));
}

#[test]
fn registration_from_token() {
    assert!(Registration::from_token(None).is_none());
    let reg = Registration::from_token(Some(17)).unwrap();
    assert_eq!(reg.token(), 17);
    assert_eq!(reg.readiness(), Ready { read: false, write: false });
    let reg = Registration::from_token(Some(usize::MAX)).unwrap();
    assert_eq!(reg.token(), usize::MAX);
    assert_eq!(reg.readiness(), Ready { read: false, write: false });
}
