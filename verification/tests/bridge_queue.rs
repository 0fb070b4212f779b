use lemurs::bridge::RequestQueue;
use lemurs::bridge::UIRequest;

#[test]
fn requests_are_consumed_in_submission_order() {
    let mut queue = RequestQueue::new();
    queue.push(UIRequest::Redraw);
    queue.push(UIRequest::SuspendDisplay);
    queue.push(UIRequest::Redraw);
    queue.push(UIRequest::ResumeDisplay);

    assert_eq!(queue.pop(), Some(UIRequest::Redraw));
    assert_eq!(queue.pop(), Some(UIRequest::SuspendDisplay));
    assert_eq!(queue.pop(), Some(UIRequest::Redraw));
    assert_eq!(queue.pop(), Some(UIRequest::ResumeDisplay));
    assert_eq!(queue.pop(), None);
}

#[test]
fn empty_queue_pops_nothing() {
    let mut queue = RequestQueue::new();
    assert_eq!(queue.len(), 0);
    assert_eq!(queue.pop(), None);
    assert_eq!(queue.len(), 0);
}

#[test]
fn interleaved_pushes_and_pops_keep_order() {
    let mut queue = RequestQueue::new();
    queue.push(UIRequest::Redraw);
    queue.push(UIRequest::SuspendDisplay);
    assert_eq!(queue.pop(), Some(UIRequest::Redraw));
    queue.push(UIRequest::Stop);
    assert_eq!(queue.len(), 2);
    assert_eq!(queue.pop(), Some(UIRequest::SuspendDisplay));
    assert_eq!(queue.pop(), Some(UIRequest::Stop));
    assert_eq!(queue.pop(), None);
}
