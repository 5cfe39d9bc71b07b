use media_key::capsense::{Capsense, CapsenseChannel};
use media_key::queue::{CapsenseRead, SampleQueue};

fn fresh_capsense() -> (Capsense, CapsenseRead) {
    let q: &'static mut SampleQueue = Box::leak(Box::new(SampleQueue::new()));
    let (tx, rx) = q.split();
    (Capsense::new(tx), rx)
}

#[test]
fn channel_next_cycles() {
    assert_eq!(CapsenseChannel::A.next(), CapsenseChannel::B);
    assert_eq!(CapsenseChannel::B.next(), CapsenseChannel::A);
}

#[test]
fn captures_alternate_and_frames_follow_b() {
    let (mut cs, mut rx) = fresh_capsense();
    assert_eq!(cs.measure(), CapsenseChannel::A);
    assert!(cs.record(100).is_none());
    assert_eq!(cs.measure(), CapsenseChannel::B);
    let frame = cs.record(200).expect("frame after B");
    assert_eq!(frame.0[0].max(), 100);
    assert_eq!(frame.0[1].max(), 200);
    assert_eq!(cs.measure(), CapsenseChannel::A);
    assert!(rx.read().is_none());
}

#[test]
fn capture_enqueues_only_after_b() {
    let (mut cs, mut rx) = fresh_capsense();
    let ch = cs.capture(160);
    assert_eq!(ch[0].moving_average(), 10);
    assert_eq!(ch[1].max(), 0);
    assert_eq!(rx.len(), 0);
    let ch = cs.capture(320);
    assert_eq!(ch[1].moving_average(), 20);
    assert_eq!(rx.len(), 1);
    let frame = rx.read().expect("one frame");
    assert_eq!(frame.0[0].max(), 160);
    assert_eq!(frame.0[1].max(), 320);
    cs.capture(1);
    assert_eq!(rx.len(), 0);
}

#[test]
fn capture_drops_frames_when_queue_full() {
    let (mut cs, mut rx) = fresh_capsense();
    for i in 0..12u16 {
        cs.capture(i);
    }
    assert_eq!(rx.len(), 4);
    let first = rx.read().unwrap();
    assert_eq!(first.0[1].max(), 1);
}

#[test]
fn fifth_enqueue_fails() {
    let (mut cs, _rx) = fresh_capsense();
    cs.capture(1);
    let frame = cs.record(2).unwrap();
    let mut q = SampleQueue::new();
    for _ in 0..4 {
        assert!(q.enqueue(frame).is_ok());
    }
    let back = q.enqueue(frame);
    assert!(back.is_err());
    assert_eq!(q.len(), 4);
}

#[test]
fn queue_is_first_in_first_out() {
    let (mut cs, _rx) = fresh_capsense();
    let mut q = SampleQueue::new();
    assert!(q.dequeue().is_none());
    cs.capture(1);
    let a = cs.record(11).unwrap();
    cs.capture(2);
    let b = cs.record(22).unwrap();
    q.enqueue(a).ok().unwrap();
    q.enqueue(b).ok().unwrap();
    assert_eq!(q.len(), 2);
    assert_eq!(q.dequeue().unwrap().0[1].max(), 11);
    assert_eq!(q.dequeue().unwrap().0[1].max(), 22);
    assert!(q.dequeue().is_none());
    assert_eq!(q.len(), 0);
}
