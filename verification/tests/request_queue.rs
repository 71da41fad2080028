use candle_vllm::request_queue::{exceeds_timeout, QueueError, QueuedRequest, RequestQueue};
use std::time::Duration;

fn req(id: &str, stream: Option<bool>) -> QueuedRequest<u32, ()> {
    QueuedRequest::new(id.to_string(), "model-a".to_string(), 7, stream, None)
}

fn ids(v: &[QueuedRequest<u32, ()>]) -> Vec<String> {
    v.iter().map(|r| r.request_id.clone()).collect()
}

#[test]
fn streaming_flag_follows_the_request() {
    assert!(req("a", Some(true)).is_streaming);
    assert!(!req("b", Some(false)).is_streaming);
    assert!(!req("c", None).is_streaming);
    let r = req("d", None);
    assert_eq!(r.model, "model-a");
    assert_eq!(r.request, 7);
    assert!(r.response_tx.is_none());
}

#[test]
fn dequeue_in_enqueue_order() {
    let mut q: RequestQueue<u32, ()> = RequestQueue::new(4, Duration::from_secs(60));
    assert!(q.is_empty());
    q.enqueue(req("a", None)).unwrap();
    q.enqueue(req("b", None)).unwrap();
    q.enqueue(req("c", None)).unwrap();
    assert_eq!(q.len(), 3);
    assert_eq!(q.dequeue().unwrap().request_id, "a");
    assert_eq!(q.dequeue().unwrap().request_id, "b");
    assert_eq!(q.dequeue().unwrap().request_id, "c");
    assert!(q.dequeue().is_none());
}

#[test]
fn full_queue_refuses_requests() {
    let mut q: RequestQueue<u32, ()> = RequestQueue::new(2, Duration::from_secs(60));
    assert_eq!(q.max_size(), 2);
    assert!(q.enqueue(req("a", None)).is_ok());
    assert!(q.enqueue(req("b", None)).is_ok());
    assert_eq!(q.enqueue(req("c", None)), Err(QueueError::QueueFull));
    assert_eq!(q.len(), 2);
    assert_eq!(ids(&q.drain()), vec!["a", "b"]);
}

#[test]
fn zero_capacity_queue_refuses_everything() {
    let mut q: RequestQueue<u32, ()> = RequestQueue::new(0, Duration::from_secs(60));
    assert_eq!(q.enqueue(req("a", None)), Err(QueueError::QueueFull));
    assert!(q.is_empty());
}

#[test]
fn drain_empties_the_queue() {
    let mut q: RequestQueue<u32, ()> = RequestQueue::new(8, Duration::from_secs(60));
    for id in ["a", "b", "c"] {
        q.enqueue(req(id, None)).unwrap();
    }
    assert_eq!(ids(&q.drain()), vec!["a", "b", "c"]);
    assert!(q.is_empty());
    assert!(q.drain().is_empty());
}

#[test]
fn remove_flagged_keeps_order_of_both_parts() {
    let mut q: RequestQueue<u32, ()> = RequestQueue::new(8, Duration::from_secs(60));
    for id in ["a", "b", "c", "d", "e"] {
        q.enqueue(req(id, None)).unwrap();
    }
    let removed = q.remove_flagged(&vec![true, false, true, false, false]);
    assert_eq!(ids(&removed), vec!["a", "c"]);
    assert_eq!(ids(&q.drain()), vec!["b", "d", "e"]);
}

#[test]
fn fresh_requests_are_not_timed_out() {
    let mut q: RequestQueue<u32, ()> = RequestQueue::new(8, Duration::from_secs(3600));
    q.enqueue(req("a", None)).unwrap();
    q.enqueue(req("b", None)).unwrap();
    assert!(q.remove_timed_out().is_empty());
    assert_eq!(q.len(), 2);
    assert!(!req("x", None).is_timed_out(Duration::from_secs(3600)));
}

#[test]
fn error_messages() {
    assert_eq!(QueueError::QueueFull.message(), "Request queue is full");
    assert_eq!(QueueError::Timeout.message(), "Request timed out in queue");
}

#[test]
fn timeout_compares_nanoseconds() {
    assert!(exceeds_timeout(2, 1));
    assert!(!exceeds_timeout(1, 1));
    assert!(!exceeds_timeout(0, 5));
    let r = req("y", None);
    let t = std::time::Instant::now();
    while t.elapsed() == Duration::ZERO {}
    assert!(r.is_timed_out(Duration::ZERO));
    assert!(!r.is_timed_out(Duration::from_secs(3600)));
}
