use service_supervisor::control::{
    translate, Acknowledgement, ControlEvent, ControlQueue, ControlRequest,
};

#[test]
fn understood_requests_are_acknowledged_and_queued() {
    let mut queue = ControlQueue::new();
    assert_eq!(queue.deliver(ControlRequest::Stop), Acknowledgement::NoError);
    assert_eq!(queue.deliver(ControlRequest::Pause), Acknowledgement::NoError);
    assert_eq!(queue.deliver(ControlRequest::Continue), Acknowledgement::NoError);
    assert_eq!(queue.len(), 3);
}

#[test]
fn other_requests_are_not_implemented_and_queue_nothing() {
    let mut queue = ControlQueue::new();
    assert_eq!(queue.deliver(ControlRequest::Interrogate), Acknowledgement::NotImplemented);
    assert_eq!(queue.deliver(ControlRequest::Shutdown), Acknowledgement::NotImplemented);
    assert_eq!(queue.deliver(ControlRequest::Other), Acknowledgement::NotImplemented);
    assert_eq!(queue.len(), 0);
    assert_eq!(queue.take(), None);
}

#[test]
fn events_leave_in_the_order_they_came() {
    let mut queue = ControlQueue::new();
    queue.deliver(ControlRequest::Pause);
    queue.deliver(ControlRequest::Interrogate);
    queue.deliver(ControlRequest::Continue);
    queue.deliver(ControlRequest::Stop);
    queue.deliver(ControlRequest::Pause);
    assert_eq!(queue.take(), Some(ControlEvent::Pause));
    assert_eq!(queue.take(), Some(ControlEvent::Continue));
    assert_eq!(queue.take(), Some(ControlEvent::Stop));
    assert_eq!(queue.len(), 1);
    assert_eq!(queue.take(), Some(ControlEvent::Pause));
    assert_eq!(queue.take(), None);
    assert_eq!(queue.len(), 0);
}

#[test]
fn taking_from_an_empty_queue_gives_nothing() {
    let mut queue = ControlQueue::new();
    assert_eq!(queue.len(), 0);
    assert_eq!(queue.take(), None);
    assert_eq!(queue.take(), None);
}

#[test]
fn repeated_events_are_not_merged() {
    let mut queue = ControlQueue::new();
    queue.deliver(ControlRequest::Stop);
    queue.deliver(ControlRequest::Stop);
    assert_eq!(queue.len(), 2);
    assert_eq!(queue.take(), Some(ControlEvent::Stop));
    assert_eq!(queue.take(), Some(ControlEvent::Stop));
    assert_eq!(queue.take(), None);
}

#[test]
fn translate_names_the_event_of_each_request() {
    assert_eq!(translate(ControlRequest::Stop), Some(ControlEvent::Stop));
    assert_eq!(translate(ControlRequest::Pause), Some(ControlEvent::Pause));
    assert_eq!(translate(ControlRequest::Continue), Some(ControlEvent::Continue));
    assert_eq!(translate(ControlRequest::Interrogate), None);
    assert_eq!(translate(ControlRequest::Shutdown), None);
    assert_eq!(translate(ControlRequest::Other), None);
}
