use subtitle_pipeline::queue::{DispatchQueue, WORKER_POLL_MILLIS};

#[test]
fn items_leave_in_the_order_they_came() {
    let mut queue: DispatchQueue<String> = DispatchQueue::new();
    assert!(queue.is_empty());
    queue.push("temp_capture_0.wav".to_string());
    queue.push("temp_capture_1.wav".to_string());
    assert_eq!(queue.len(), 2);
    assert_eq!(queue.pull(), Some("temp_capture_0.wav".to_string()));
    queue.push("temp_capture_2.wav".to_string());
    assert_eq!(queue.pull(), Some("temp_capture_1.wav".to_string()));
    assert_eq!(queue.pull(), Some("temp_capture_2.wav".to_string()));
    assert!(queue.is_empty());
}

#[test]
fn an_empty_queue_yields_nothing() {
    let mut queue: DispatchQueue<u32> = DispatchQueue::new();
    assert_eq!(queue.pull(), None);
    assert_eq!(queue.len(), 0);
    queue.push(7);
    assert!(!queue.is_empty());
    assert_eq!(queue.pull(), Some(7));
    assert_eq!(queue.pull(), None);
}

#[test]
fn worker_polls_twice_a_second() {
    assert_eq!(WORKER_POLL_MILLIS, 500);
}
