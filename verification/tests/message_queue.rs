use flight_brain::message_queue::MessageQueue;

#[test]
fn test_push_and_iter() {
    let mut queue: MessageQueue<i32> = MessageQueue::new();
    queue.push(1);
    queue.push(2);

    assert_eq!(queue.iter().next(), None);
    queue.next_tick();

    let mut iter = queue.iter();
    assert_eq!(iter.next(), Some(&1));
    assert_eq!(iter.next(), Some(&2));
    assert_eq!(iter.next(), None);
}

#[test]
fn test_next_tick_clears_next_tick_queue() {
    let mut queue: MessageQueue<i32> = MessageQueue::new();
    queue.push(1);
    queue.push(2);

    assert_eq!(queue.current_tick_queue.len(), 0);
    assert_eq!(queue.next_tick_queue.len(), 2);
    queue.next_tick();

    queue.push(3);
    assert_eq!(queue.current_tick_queue.len(), 2);
    assert_eq!(queue.next_tick_queue.len(), 1);

    queue.next_tick();

    let mut iter = queue.iter();
    assert_eq!(iter.next(), Some(&3));
    assert_eq!(iter.next(), None);
}

#[test]
fn test_empty_queue() {
    let mut queue: MessageQueue<i32> = MessageQueue::new();
    assert!(queue.iter().next().is_none());
    queue.next_tick();
    assert!(queue.iter().next().is_none());
}

#[test]
fn default_queue_is_empty() {
    let queue: MessageQueue<u8> = MessageQueue::default();
    assert_eq!(queue.current_tick_queue.len(), 0);
    assert_eq!(queue.next_tick_queue.len(), 0);
    assert_eq!(queue.iter().count(), 0);
}

#[test]
fn push_is_not_seen_in_the_current_tick() {
    let mut queue: MessageQueue<u32> = MessageQueue::new();
    queue.push(7);
    queue.next_tick();
    queue.push(8);
    let current: Vec<u32> = queue.iter().copied().collect();
    assert_eq!(current, vec![7]);
    let queued: Vec<u32> = queue.next_tick_queue.iter().copied().collect();
    assert_eq!(queued, vec![8]);
}

#[test]
fn next_tick_delivers_queued_then_pushed_in_order() {
    let mut queue: MessageQueue<u32> = MessageQueue::new();
    queue.push(1);
    queue.push(2);
    queue.push(3);
    queue.next_tick();
    let current: Vec<u32> = queue.iter().copied().collect();
    assert_eq!(current, vec![1, 2, 3]);
    assert_eq!(queue.next_tick_queue.len(), 0);
}

#[test]
fn messages_live_for_one_tick() {
    let mut queue: MessageQueue<u32> = MessageQueue::new();
    queue.push(5);
    queue.next_tick();
    assert_eq!(queue.iter().count(), 1);
    queue.next_tick();
    assert_eq!(queue.iter().count(), 0);
    assert_eq!(queue.next_tick_queue.len(), 0);
}

#[test]
fn iter_mut_changes_current_messages_only() {
    let mut queue: MessageQueue<u32> = MessageQueue::new();
    queue.push(1);
    queue.push(2);
    queue.next_tick();
    queue.push(10);
    for message in queue.iter_mut() {
        *message += 100;
    }
    let current: Vec<u32> = queue.iter().copied().collect();
    assert_eq!(current, vec![101, 102]);
    let queued: Vec<u32> = queue.next_tick_queue.iter().copied().collect();
    assert_eq!(queued, vec![10]);
}
