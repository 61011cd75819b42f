use simple_actor::{Actor, LoopState, MessageLoop};
use std::sync::atomic::{AtomicBool, AtomicUsize, Ordering};
use std::sync::{Arc, Mutex};

/// Records every message it is handed, and tells when it is dropped.
struct Recorder {
    log: Arc<Mutex<Vec<u32>>>,
    dropped: Arc<AtomicBool>,
}

impl Actor for Recorder {
    type Msg = u32;

    fn recv(&mut self, msg: u32) {
        self.log.lock().unwrap().push(msg);
    }
}

impl Drop for Recorder {
    fn drop(&mut self) {
        self.dropped.store(true, Ordering::SeqCst);
    }
}

fn recorder() -> (Recorder, Arc<Mutex<Vec<u32>>>, Arc<AtomicBool>) {
    let log = Arc::new(Mutex::new(Vec::new()));
    let dropped = Arc::new(AtomicBool::new(false));
    (Recorder { log: log.clone(), dropped: dropped.clone() }, log, dropped)
}

/// Counts with a plain integer: safe only because the loop never handles two
/// messages at once.
struct Counter {
    count: usize,
    last: Arc<AtomicUsize>,
}

impl Actor for Counter {
    type Msg = ();

    fn recv(&mut self, _msg: ()) {
        self.count += 1;
        self.last.store(self.count, Ordering::SeqCst);
    }
}

#[test]
fn new_loop_is_running_and_has_handled_nothing() {
    let (actor, log, dropped) = recorder();
    let message_loop = MessageLoop::new(actor);
    assert_eq!(message_loop.state(), LoopState::Running);
    assert!(log.lock().unwrap().is_empty());
    assert!(!dropped.load(Ordering::SeqCst));
}

#[test]
fn step_hands_one_message_to_the_actor() {
    let (actor, log, dropped) = recorder();
    let mut message_loop = MessageLoop::new(actor);
    assert_eq!(message_loop.step(Some(7)), LoopState::Running);
    assert_eq!(*log.lock().unwrap(), vec![7]);
    assert_eq!(message_loop.state(), LoopState::Running);
    assert!(!dropped.load(Ordering::SeqCst));
}

#[test]
fn step_keeps_the_order_of_the_events() {
    let (actor, log, _dropped) = recorder();
    let mut message_loop = MessageLoop::new(actor);
    for msg in [3, 1, 4, 1, 5, 9, 2, 6] {
        assert_eq!(message_loop.step(Some(msg)), LoopState::Running);
    }
    assert_eq!(*log.lock().unwrap(), vec![3, 1, 4, 1, 5, 9, 2, 6]);
}

#[test]
fn step_calls_recv_once_for_each_message() {
    let last = Arc::new(AtomicUsize::new(0));
    let mut message_loop = MessageLoop::new(Counter { count: 0, last: last.clone() });
    for handled in 1..=1000usize {
        assert_eq!(message_loop.step(Some(())), LoopState::Running);
        assert_eq!(last.load(Ordering::SeqCst), handled);
    }
    assert_eq!(message_loop.step(None), LoopState::Terminated);
    assert_eq!(last.load(Ordering::SeqCst), 1000);
}

#[test]
fn end_of_mailbox_terminates_the_loop_and_drops_the_actor() {
    let (actor, log, dropped) = recorder();
    let mut message_loop = MessageLoop::new(actor);
    assert_eq!(message_loop.step(Some(1)), LoopState::Running);
    assert_eq!(message_loop.step(Some(2)), LoopState::Running);
    assert!(!dropped.load(Ordering::SeqCst));
    assert_eq!(message_loop.step(None), LoopState::Terminated);
    assert_eq!(message_loop.state(), LoopState::Terminated);
    assert!(dropped.load(Ordering::SeqCst));
    assert_eq!(*log.lock().unwrap(), vec![1, 2]);
}

#[test]
fn end_of_mailbox_terminates_a_loop_that_handled_nothing() {
    let (actor, log, dropped) = recorder();
    let mut message_loop = MessageLoop::new(actor);
    assert_eq!(message_loop.step(None), LoopState::Terminated);
    assert!(dropped.load(Ordering::SeqCst));
    assert!(log.lock().unwrap().is_empty());
}

#[test]
fn terminated_loop_drops_what_it_is_given() {
    let (actor, log, _dropped) = recorder();
    let mut message_loop = MessageLoop::new(actor);
    assert_eq!(message_loop.step(Some(1)), LoopState::Running);
    assert_eq!(message_loop.step(None), LoopState::Terminated);
    assert_eq!(message_loop.step(Some(2)), LoopState::Terminated);
    assert_eq!(message_loop.step(None), LoopState::Terminated);
    assert_eq!(message_loop.state(), LoopState::Terminated);
    assert_eq!(*log.lock().unwrap(), vec![1]);
}

#[test]
fn loop_states_compare_and_copy() {
    let running = LoopState::Running;
    let copy = running;
    assert_eq!(running, copy);
    assert_ne!(LoopState::Running, LoopState::Terminated);
    assert_eq!(format!("{:?}", LoopState::Terminated), "Terminated");
}
