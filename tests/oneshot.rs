use oneshot_sync::oneshot::{OneShot, RecvError, SendError};
use oneshot_sync::slot::Slot;

#[test]
fn slot_write_publish_read() {
    let mut s: Slot<u32> = Slot::new();
    assert!(!s.is_ready());
    assert!(!s.has_message());
    assert!(!s.take_ready_if_set());
    s.write(9);
    assert!(s.has_message());
    assert!(!s.is_ready());
    s.set_ready();
    assert!(s.is_ready());
    assert!(s.take_ready_if_set());
    assert!(!s.is_ready());
    assert_eq!(s.read(), 9);
    assert!(!s.has_message());
}

#[test]
fn round_trip_exactly_once() {
    let mut c = OneShot::new();
    assert_eq!(c.send(String::from("v")), Ok(()));
    assert_eq!(c.receive(), Ok(String::from("v")));
    assert_eq!(c.receive(), Err(RecvError::NoMessage));
}

#[test]
fn second_send_keeps_first_value() {
    let mut c = OneShot::new();
    assert_eq!(c.send(1u64), Ok(()));
    assert_eq!(c.send(2u64), Err(SendError::AlreadyUsed(2)));
    assert_eq!(c.receive(), Ok(1));
    assert_eq!(c.send(3u64), Err(SendError::AlreadyUsed(3)));
    assert_eq!(c.receive(), Err(RecvError::NoMessage));
}

#[test]
fn receive_before_send_is_refused() {
    let mut c: OneShot<Vec<u8>> = OneShot::new();
    assert_eq!(c.receive(), Err(RecvError::NoMessage));
    assert!(!c.is_ready());
    assert_eq!(c.send(vec![1, 2]), Ok(()));
    assert_eq!(c.receive(), Ok(vec![1, 2]));
}

#[test]
fn ready_only_between_send_and_receive() {
    let mut c = OneShot::new();
    for _ in 0..10 {
        assert!(!c.is_ready());
    }
    c.send('x').unwrap();
    for _ in 0..10 {
        assert!(c.is_ready());
    }
    assert_eq!(c.receive(), Ok('x'));
    assert!(!c.is_ready());
}
