use msg_queue::queue::MessageQueue;

#[test]
fn sequential_enqueues_dequeue_in_order() {
    let mut q = MessageQueue::new();
    let payloads = ["first", "second", "third", "fourth", "fifth"];
    for p in payloads.iter() {
        q.enqueue(p.to_string());
    }
    for p in payloads.iter() {
        let m = q.dequeue().expect("queue should not be empty yet");
        assert_eq!(m.payload, p.to_string());
    }
    assert!(q.dequeue().is_none());
}

#[test]
fn dequeue_on_empty_returns_none_and_keeps_length() {
    let mut q = MessageQueue::new();
    assert_eq!(q.len(), 0);
    assert!(q.dequeue().is_none());
    assert_eq!(q.len(), 0);
    q.enqueue("only".to_string());
    let m = q.dequeue().expect("one message was enqueued");
    assert_eq!(m.payload, "only");
    assert!(q.dequeue().is_none());
    assert_eq!(q.len(), 0);
}

#[test]
fn enqueue_then_dequeue_returns_the_same_message() {
    let mut q = MessageQueue::new();
    let id = q.enqueue("payload under test".to_string());
    let m = q.dequeue().expect("the message just enqueued is there");
    assert_eq!(m.id, id);
    assert_eq!(m.payload, "payload under test");
}

#[test]
fn identifiers_are_distinct_across_ten_thousand_calls() {
    let mut q = MessageQueue::new();
    let mut ids: Vec<u128> = Vec::new();
    for _ in 0..10_000 {
        ids.push(q.enqueue(String::new()));
    }
    ids.sort();
    for w in ids.windows(2) {
        assert_ne!(w[0], w[1], "two enqueue calls returned the same identifier");
    }
}

#[test]
fn identifiers_carry_the_version_and_variant_fields() {
    let mut q = MessageQueue::new();
    for _ in 0..64 {
        let id = q.enqueue(String::new());
        assert_eq!((id >> 76) & 0xf, 4);
        assert_eq!((id >> 62) & 0x3, 2);
    }
}

#[test]
fn interleaved_enqueues_and_dequeues_keep_order() {
    let mut q = MessageQueue::new();
    q.enqueue("a".to_string());
    q.enqueue("b".to_string());
    assert_eq!(q.dequeue().unwrap().payload, "a");
    q.enqueue("c".to_string());
    assert_eq!(q.len(), 2);
    assert_eq!(q.dequeue().unwrap().payload, "b");
    assert_eq!(q.dequeue().unwrap().payload, "c");
    assert!(q.dequeue().is_none());
}
