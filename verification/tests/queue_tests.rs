use starlord::queue::WorkQueue;
use starlord::request::StarRequest;

fn request(user: &str, timestamp: &str) -> StarRequest {
    StarRequest {
        user_id: user.to_string(),
        message_timestamp: timestamp.to_string(),
        channel_id: "C1".to_string(),
        response_url: "https://hooks.example.com/r".to_string(),
    }
}

#[test]
fn new_queue_is_empty() {
    let mut queue = WorkQueue::new();
    assert!(queue.is_empty());
    assert_eq!(queue.len(), 0);
    assert_eq!(queue.dequeue(), None);
    assert!(queue.is_empty());
}

#[test]
fn two_requests_come_out_in_the_order_they_went_in() {
    let mut queue = WorkQueue::new();
    let a = request("U1", "1482786363.038760");
    let b = request("U1", "1482786364.000001");
    queue.enqueue(a.clone());
    queue.enqueue(b.clone());
    assert_eq!(queue.len(), 2);
    assert_eq!(queue.dequeue(), Some(a));
    assert_eq!(queue.dequeue(), Some(b));
    assert_eq!(queue.dequeue(), None);
}

#[test]
fn order_holds_behind_waiting_requests() {
    let mut queue = WorkQueue::new();
    let first = request("U0", "1000000000.000000");
    let a = request("U1", "1482786363.038760");
    let b = request("U1", "1482786364.000001");
    queue.enqueue(first.clone());
    queue.enqueue(a.clone());
    assert_eq!(queue.dequeue(), Some(first));
    queue.enqueue(b.clone());
    assert_eq!(queue.dequeue(), Some(a));
    assert_eq!(queue.dequeue(), Some(b));
    assert!(queue.is_empty());
}

#[test]
fn equal_requests_are_both_kept() {
    let mut queue = WorkQueue::new();
    let a = request("U1", "1482786363.038760");
    queue.enqueue(a.clone());
    queue.enqueue(a.clone());
    assert_eq!(queue.len(), 2);
    assert_eq!(queue.dequeue(), Some(a.clone()));
    assert_eq!(queue.dequeue(), Some(a));
}
