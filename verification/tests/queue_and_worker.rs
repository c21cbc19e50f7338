//! The work queue against its backing concurrent queue, and the worker's
//! single-shot claim-and-report behavior.

use parapool::pool::ControlEvent;
use parapool::queue::WorkQueue;
use parapool::worker::claim_work;
use parapool::worker::exit_event;

#[test]
fn new_queue_is_empty() {
    let mut q = WorkQueue::new();
    assert_eq!(q.len(), 0);
    assert_eq!(q.try_pop(), None);
}

#[test]
fn push_then_pop_returns_the_item() {
    let mut q = WorkQueue::new();
    q.push("echo hello".to_string());
    assert_eq!(q.len(), 1);
    assert_eq!(q.try_pop(), Some("echo hello".to_string()));
    assert_eq!(q.len(), 0);
}

#[test]
fn pops_come_out_in_fifo_order() {
    let mut q = WorkQueue::new();
    q.push("first".to_string());
    q.push("second".to_string());
    q.push("third".to_string());
    assert_eq!(q.try_pop(), Some("first".to_string()));
    assert_eq!(q.try_pop(), Some("second".to_string()));
    assert_eq!(q.try_pop(), Some("third".to_string()));
    assert_eq!(q.try_pop(), None);
}

#[test]
fn each_item_is_delivered_exactly_once() {
    let mut q = WorkQueue::new();
    for i in 0..100 {
        q.push(format!("job {}", i));
    }
    let mut seen = Vec::new();
    while let Some(item) = q.try_pop() {
        assert!(!seen.contains(&item));
        seen.push(item);
    }
    assert_eq!(seen.len(), 100);
    assert_eq!(q.len(), 0);
}

#[test]
fn len_tracks_pushes_and_pops() {
    let mut q = WorkQueue::new();
    for i in 0..5 {
        assert_eq!(q.len(), i);
        q.push(format!("{}", i));
    }
    assert_eq!(q.len(), 5);
    q.try_pop();
    q.try_pop();
    assert_eq!(q.len(), 3);
}

#[test]
fn claim_work_takes_the_head_or_reports_empty() {
    let mut q = WorkQueue::new();
    q.push("head".to_string());
    q.push("tail".to_string());
    assert_eq!(claim_work(&mut q), Some("head".to_string()));
    assert_eq!(claim_work(&mut q), Some("tail".to_string()));
    assert_eq!(claim_work(&mut q), None);
    assert_eq!(claim_work(&mut q), None);
}

#[test]
fn exit_event_reports_the_right_outcome() {
    assert_eq!(exit_event(true), ControlEvent::WorkerFinishedJob);
    assert_eq!(exit_event(false), ControlEvent::WorkerFoundQueueEmpty);
}
