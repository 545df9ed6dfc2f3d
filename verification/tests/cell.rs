use rustybar::cell::SingleQueue;

#[test]
fn read_now_returns_latest() {
    let mut q = SingleQueue::new(1u64);
    assert_eq!(*q.read_now(), 1);
    q.write(2);
    assert_eq!(*q.read_now(), 2);
}

#[test]
fn poll_waits_for_news() {
    let q = SingleQueue::new(10u64);
    let mut sub = q.subscribe();
    // Nothing new since subscription: the consumer would block, not re-read.
    assert_eq!(q.poll(&mut sub), None);
}

#[test]
fn no_missed_update() {
    // A consumer that observed v1 and polls after v1 and v2 were both
    // written receives v2 — the latest — never v1 again.
    let mut q = SingleQueue::new(0u64);
    q.write(1);
    let mut sub = q.subscribe(); // has observed v1
    q.write(2);
    assert_eq!(q.poll(&mut sub), Some(&2));
    // And the cursor advanced: polling again without further writes blocks.
    assert_eq!(q.poll(&mut sub), None);
}

#[test]
fn slow_consumer_jumps_to_latest() {
    let mut q = SingleQueue::new(0u64);
    let mut sub = q.subscribe();
    q.write(1);
    q.write(2);
    q.write(3);
    assert_eq!(q.poll(&mut sub), Some(&3));
}

#[test]
fn independent_consumers_each_see_the_update() {
    let mut q = SingleQueue::new(0u64);
    let mut a = q.subscribe();
    let mut b = q.subscribe();
    q.write(7);
    assert_eq!(q.poll(&mut a), Some(&7));
    assert_eq!(q.poll(&mut b), Some(&7));
}
