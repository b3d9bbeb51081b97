use bountui::queue::{CommandQueue, DISPATCHER_QUEUE_CAPACITY};

#[test]
fn dispatcher_queue_has_one_slot() {
    let queue: CommandQueue<&str> = CommandQueue::for_dispatcher();
    assert_eq!(DISPATCHER_QUEUE_CAPACITY, 1);
    assert_eq!(queue.capacity(), 1);
    assert!(queue.is_empty());
    assert!(!queue.is_full());
}

#[test]
fn full_queue_hands_the_command_back() {
    let mut queue = CommandQueue::for_dispatcher();
    assert_eq!(queue.submit("a1"), Ok(()));
    assert!(queue.is_full());
    assert_eq!(queue.submit("b1"), Err("b1"));
    assert_eq!(queue.len(), 1);
    assert_eq!(queue.take(), Some("a1"));
    assert_eq!(queue.take(), None);
}

/// Two producers hand in at the same moment; whoever is refused waits and
/// hands in again. Each producer's own commands are applied in its order.
#[test]
fn producers_keep_their_own_order() {
    let mut queue = CommandQueue::for_dispatcher();
    let mut applied = Vec::new();
    let mut a = vec!["a1", "a2", "a3"].into_iter().peekable();
    let mut b = vec!["b1", "b2"].into_iter().peekable();
    let mut turn = 0;
    while a.peek().is_some() || b.peek().is_some() || !queue.is_empty() {
        // both producers offer their next command; b goes first on odd turns
        let order: [bool; 2] = if turn % 2 == 0 { [true, false] } else { [false, true] };
        for is_a in order {
            let producer = if is_a { &mut a } else { &mut b };
            if let Some(command) = producer.peek().copied() {
                if queue.submit(command).is_ok() {
                    producer.next();
                }
            }
        }
        if let Some(command) = queue.take() {
            applied.push(command);
        }
        turn += 1;
    }
    let from_a: Vec<&str> = applied.iter().copied().filter(|c| c.starts_with('a')).collect();
    let from_b: Vec<&str> = applied.iter().copied().filter(|c| c.starts_with('b')).collect();
    assert_eq!(from_a, vec!["a1", "a2", "a3"]);
    assert_eq!(from_b, vec!["b1", "b2"]);
    assert_eq!(applied.len(), 5);
}

#[test]
fn larger_queue_is_first_in_first_out() {
    let mut queue = CommandQueue::new(3);
    assert_eq!(queue.submit(1), Ok(()));
    assert_eq!(queue.submit(2), Ok(()));
    assert_eq!(queue.submit(3), Ok(()));
    assert_eq!(queue.submit(4), Err(4));
    assert_eq!(queue.take(), Some(1));
    assert_eq!(queue.submit(4), Ok(()));
    assert_eq!(queue.take(), Some(2));
    assert_eq!(queue.take(), Some(3));
    assert_eq!(queue.take(), Some(4));
    assert_eq!(queue.take(), None);
}
