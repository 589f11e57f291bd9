use spexia::audio::FrameQueue;

#[test]
fn new_queue_is_empty() {
    let mut queue: FrameQueue<u8> = FrameQueue::new();
    assert!(queue.is_empty());
    assert_eq!(queue.len(), 0);
    assert_eq!(queue.pop(), None);
    assert!(queue.is_empty());
}

#[test]
fn frames_leave_in_the_order_they_came() {
    let mut queue = FrameQueue::new();
    queue.push(1u32);
    queue.push(2u32);
    assert_eq!(queue.pop(), Some(1));
    queue.push(3u32);
    assert_eq!(queue.len(), 2);
    assert!(!queue.is_empty());
    assert_eq!(queue.pop(), Some(2));
    assert_eq!(queue.pop(), Some(3));
    assert_eq!(queue.pop(), None);
    assert_eq!(queue.pop(), None);
}

#[test]
fn popped_then_queued_is_what_was_pushed() {
    let mut queue = FrameQueue::new();
    let mut pushed = Vec::new();
    let mut popped = Vec::new();
    let mut next = 0u32;
    for step in 0..200u32 {
        if step % 3 == 1 || step % 7 == 0 {
            if let Some(frame) = queue.pop() {
                popped.push(frame);
            }
        } else {
            queue.push(next);
            pushed.push(next);
            next += 1;
        }
    }
    while let Some(frame) = queue.pop() {
        popped.push(frame);
    }
    assert_eq!(popped, pushed);
}

#[test]
fn equal_frames_are_all_kept() {
    let mut queue = FrameQueue::new();
    queue.push("same");
    queue.push("same");
    assert_eq!(queue.len(), 2);
    assert_eq!(queue.pop(), Some("same"));
    assert_eq!(queue.pop(), Some("same"));
    assert_eq!(queue.pop(), None);
}
