use std::cell::{Cell, RefCell};
use std::rc::Rc;

use thread_pool::{PoolCore, PoolCreationError, PoolPhase, Worker, WorkerStep, next_step};

/// A stand-in for a channel's sending half that notes in a shared log when it is dropped.
struct LoggedSender {
    log: Rc<RefCell<Vec<String>>>,
}

impl Drop for LoggedSender {
    fn drop(&mut self) {
        self.log.borrow_mut().push("sender dropped".to_string());
    }
}

fn plain_pool(size: usize) -> Result<PoolCore<usize, u8>, PoolCreationError> {
    PoolCore::new(size, || (7u8, 0u8), |id: usize, _rx: &u8| 100 + id)
}

#[test]
fn construct_zero_fails_without_side_effects() {
    let opened = Cell::new(0u32);
    let spawned = Cell::new(0u32);
    let r: Result<PoolCore<usize, u8>, PoolCreationError> = PoolCore::new(
        0,
        || {
            opened.set(opened.get() + 1);
            (1u8, 2u8)
        },
        |id: usize, _rx: &u8| {
            spawned.set(spawned.get() + 1);
            id
        },
    );
    let e = r.err().expect("size zero must be refused");
    assert!(!e.message().is_empty());
    assert_eq!(e.message(), "Invalid size");
    assert_eq!(e.description(), "Invalid size");
    assert_eq!(opened.get(), 0);
    assert_eq!(spawned.get(), 0);
}

#[test]
fn construct_positive_sizes_yield_that_many_workers() {
    for n in 1usize..=8 {
        let p = plain_pool(n).expect("positive size must succeed");
        assert_eq!(p.size(), n);
        assert_eq!(p.workers().len(), n);
        for (i, w) in p.workers().iter().enumerate() {
            assert_eq!(w.id(), i);
            assert!(w.is_running());
            assert_eq!(w.thread, Some(100 + i));
        }
        assert!(p.is_active());
        assert_eq!(p.phase(), PoolPhase::Active);
        assert_eq!(p.sender(), Some(&7u8));
    }
}

#[test]
fn construct_opens_once_and_spawns_in_order_with_shared_receiver() {
    let opened = Cell::new(0u32);
    let seen: RefCell<Vec<(usize, u32)>> = RefCell::new(Vec::new());
    let p: PoolCore<usize, &str> = PoolCore::new(
        4,
        || {
            opened.set(opened.get() + 1);
            ("tx", 42u32)
        },
        |id: usize, rx: &u32| {
            seen.borrow_mut().push((id, *rx));
            id * 10
        },
    )
    .unwrap();
    assert_eq!(opened.get(), 1);
    assert_eq!(*seen.borrow(), vec![(0, 42), (1, 42), (2, 42), (3, 42)]);
    assert_eq!(p.sender(), Some(&"tx"));
    let threads: Vec<Option<usize>> = p.workers().iter().map(|w| w.thread).collect();
    assert_eq!(threads, vec![Some(0), Some(10), Some(20), Some(30)]);
}

#[test]
fn dispose_closes_before_joining_and_joins_in_index_order() {
    let log: Rc<RefCell<Vec<String>>> = Rc::new(RefCell::new(Vec::new()));
    let tx_log = Rc::clone(&log);
    let mut p: PoolCore<String, LoggedSender> = PoolCore::new(
        3,
        move || (LoggedSender { log: tx_log }, ()),
        |id: usize, _rx: &()| format!("handle {}", id),
    )
    .unwrap();
    assert!(log.borrow().is_empty());
    let join_log = Rc::clone(&log);
    let order = p.dispose(move |id: usize, h: String| {
        join_log.borrow_mut().push(format!("join {} {}", id, h));
    });
    assert_eq!(order, vec![0, 1, 2]);
    assert_eq!(
        *log.borrow(),
        vec![
            "sender dropped".to_string(),
            "join 0 handle 0".to_string(),
            "join 1 handle 1".to_string(),
            "join 2 handle 2".to_string(),
        ]
    );
    assert!(!p.is_active());
    assert!(p.sender().is_none());
    assert_eq!(p.phase(), PoolPhase::Terminated);
    assert_eq!(p.size(), 3);
    for (i, w) in p.workers().iter().enumerate() {
        assert_eq!(w.id(), i);
        assert!(!w.is_running());
    }
}

#[test]
fn dispose_waits_on_every_worker_exactly_once() {
    let joined: RefCell<Vec<usize>> = RefCell::new(Vec::new());
    let mut p = plain_pool(5).unwrap();
    let order = p.dispose(|_id: usize, h: usize| joined.borrow_mut().push(h));
    assert_eq!(order, vec![0, 1, 2, 3, 4]);
    assert_eq!(*joined.borrow(), vec![100, 101, 102, 103, 104]);
}

#[test]
fn worker_holds_its_handle_until_taken() {
    let mut w = Worker::new(3, "h");
    assert_eq!(w.id(), 3);
    assert!(w.is_running());
    assert_eq!(w.take_thread(), Some("h"));
    assert!(!w.is_running());
    assert_eq!(w.id(), 3);
}

#[test]
fn next_step_runs_a_received_job() {
    let received: Result<u32, &str> = Ok(9);
    match next_step(received) {
        WorkerStep::Run(j) => assert_eq!(j, 9),
        WorkerStep::Stop => panic!("a received job must be run"),
    }
}

#[test]
fn next_step_stops_on_disconnect() {
    let received: Result<u32, &str> = Err("disconnected");
    assert!(matches!(next_step(received), WorkerStep::Stop));
}

#[test]
fn creation_error_keeps_its_message() {
    let e = PoolCreationError::new("too few".to_string());
    assert_eq!(e.message(), "too few");
    assert_eq!(e.description(), "too few");
    assert_eq!(e.message, "too few");
    let d = PoolCreationError::invalid_size();
    assert_eq!(d.message(), "Invalid size");
}
