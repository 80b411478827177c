use mpv_overlay::{DrainStep, EngineEvent, EventQueue};

fn log(text: &str) -> EngineEvent {
    EngineEvent::LogMessage { level: "debug".to_string(), text: text.to_string() }
}

#[test]
fn drain_returns_pending_then_sentinel() {
    let mut q = EventQueue::new();
    q.push(log("a"));
    q.push(EngineEvent::Other { id: 6 });
    q.push(log("b"));
    let out = q.drain();
    assert_eq!(out.len(), 4);
    assert!(matches!(&out[0], EngineEvent::LogMessage { text, .. } if text == "a"));
    assert!(matches!(out[1], EngineEvent::Other { id: 6 }));
    assert!(matches!(&out[2], EngineEvent::LogMessage { text, .. } if text == "b"));
    assert!(matches!(out[3], EngineEvent::Empty));
    assert_eq!(q.len(), 0);
}

#[test]
fn drain_of_empty_queue_is_the_sentinel() {
    let mut q = EventQueue::new();
    let out = q.drain();
    assert_eq!(out.len(), 1);
    assert!(matches!(out[0], EngineEvent::Empty));
}

#[test]
fn poll_is_oldest_first_and_never_waits() {
    let mut q = EventQueue::new();
    assert!(matches!(q.poll(), EngineEvent::Empty));
    q.push(EngineEvent::Other { id: 1 });
    q.push(EngineEvent::Other { id: 2 });
    assert!(matches!(q.poll(), EngineEvent::Other { id: 1 }));
    assert!(matches!(q.poll(), EngineEvent::Other { id: 2 }));
    assert!(matches!(q.poll(), EngineEvent::Empty));
}

#[test]
fn sentinel_is_not_queued() {
    let mut q = EventQueue::new();
    q.push(EngineEvent::Empty);
    assert_eq!(q.len(), 0);
}

#[test]
fn drain_steps_by_kind() {
    assert_eq!(EngineEvent::Empty.drain_step(), DrainStep::Stop);
    assert_eq!(log("x").drain_step(), DrainStep::Log);
    assert_eq!(EngineEvent::Other { id: 3 }.drain_step(), DrainStep::Ignore);
}
