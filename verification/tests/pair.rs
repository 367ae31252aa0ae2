use futures::executor::{block_on, ThreadPool};
use futures::future::poll_fn;
use futures::task::noop_waker_ref;
use std::sync::atomic::{AtomicUsize, Ordering};
use std::sync::Arc;
use std::task::{Context, Poll};
use std::time::{Duration, Instant};
use stop_handle::{stop_handle, StopHandle, StopReason, StopWait};

#[derive(Debug, PartialEq, Eq)]
pub enum TerminationReason {
    Manual,
}

fn wait_for<T>(wait: &mut StopWait<T>) -> StopReason<T> {
    block_on(poll_fn(|cx| match wait.poll(cx) {
        Some(outcome) => Poll::Ready(outcome),
        None => Poll::Pending,
    }))
}

fn poll_once<T>(wait: &mut StopWait<T>) -> Option<StopReason<T>> {
    let mut cx = Context::from_waker(noop_waker_ref());
    wait.poll(&mut cx)
}

fn delay_for(span: Duration) {
    let start = Instant::now();
    while start.elapsed() < span {
        std::hint::spin_loop();
    }
}

#[test]
fn test_stop_handle() {
    let (stop_handle, mut stop_wait) = stop_handle();

    let pool = ThreadPool::new().unwrap();
    pool.spawn_ok(async move {
        delay_for(Duration::from_millis(100));
        stop_handle.stop(TerminationReason::Manual);
    });

    let res = wait_for(&mut stop_wait);
    assert!(matches!(res, StopReason::Requested(TerminationReason::Manual)));
}

#[test]
fn delayed_stop_from_another_task_delivers_its_text() {
    let (handle, mut wait) = stop_handle::<&'static str>();
    let pool = ThreadPool::new().unwrap();
    pool.spawn_ok(async move {
        delay_for(Duration::from_millis(50));
        handle.stop("Manual");
    });
    assert_eq!(wait_for(&mut wait), StopReason::Requested("Manual"));
    assert!(wait.is_terminated());
}

#[test]
fn stop_then_wait_yields_the_reason() {
    for reason in [0u64, 1, 7, u64::MAX] {
        let (handle, mut wait) = stop_handle();
        handle.stop(reason);
        assert_eq!(wait_for(&mut wait), StopReason::Requested(reason));
    }
    let (handle, mut wait) = stop_handle();
    handle.stop(String::from("disk full"));
    assert_eq!(wait_for(&mut wait), StopReason::Requested(String::from("disk full")));
}

#[test]
fn stop_is_seen_by_the_first_poll_after_it() {
    let (handle, mut wait) = stop_handle();
    assert_eq!(poll_once(&mut wait), None);
    handle.stop(3u8);
    assert_eq!(poll_once(&mut wait), Some(StopReason::Requested(3u8)));
}

#[test]
fn second_stop_on_the_same_handle_is_ignored() {
    let (handle, mut wait) = stop_handle();
    handle.stop("first");
    handle.stop("second");
    assert_eq!(wait_for(&mut wait), StopReason::Requested("first"));
    assert_eq!(poll_once(&mut wait), None);
}

#[test]
fn second_stop_on_a_clone_is_ignored() {
    let (handle, mut wait) = stop_handle();
    let twin = handle.clone();
    handle.stop(1u32);
    twin.stop(2u32);
    assert_eq!(wait_for(&mut wait), StopReason::Requested(1u32));

    let (handle, mut wait) = stop_handle();
    let twin = handle.clone();
    twin.stop(2u32);
    handle.stop(1u32);
    assert_eq!(wait_for(&mut wait), StopReason::Requested(2u32));
}

#[test]
fn stop_through_a_clone_made_after_the_first_stop_is_ignored() {
    let (handle, mut wait) = stop_handle();
    handle.stop('a');
    let late = handle.clone();
    late.stop('b');
    assert_eq!(wait_for(&mut wait), StopReason::Requested('a'));
}

#[test]
fn stop_after_the_wait_resolved_changes_nothing() {
    let (handle, mut wait) = stop_handle();
    handle.stop(10i32);
    assert_eq!(wait_for(&mut wait), StopReason::Requested(10i32));
    handle.stop(11i32);
    handle.clone().stop(12i32);
    assert!(wait.is_terminated());
    assert_eq!(poll_once(&mut wait), None);
}

#[test]
fn stop_after_the_waiter_is_gone_does_not_fail() {
    let (handle, wait) = stop_handle();
    drop(wait);
    handle.stop(1u8);
    handle.stop(2u8);
}

#[test]
fn dropping_the_handle_at_once_yields_handle_lost() {
    let (handle, mut wait) = stop_handle::<TerminationReason>();
    drop(handle);
    assert_eq!(wait_for(&mut wait), StopReason::HandleLost);
    assert!(wait.is_terminated());
}

#[test]
fn dropping_every_clone_yields_handle_lost() {
    let (handle, mut wait) = stop_handle::<u64>();
    let clones: Vec<_> = (0..5).map(|_| handle.clone()).collect();
    drop(handle);
    assert_eq!(poll_once(&mut wait), None);
    drop(clones);
    assert_eq!(wait_for(&mut wait), StopReason::HandleLost);
}

#[test]
fn a_surviving_clone_keeps_the_wait_pending() {
    let (handle, mut wait) = stop_handle::<u64>();
    let survivor = handle.clone();
    drop(handle);
    assert_eq!(poll_once(&mut wait), None);
    assert!(!wait.is_terminated());
    assert_eq!(poll_once(&mut wait), None);
    drop(survivor);
    assert_eq!(poll_once(&mut wait), Some(StopReason::HandleLost));
}

#[test]
fn a_surviving_clone_can_still_stop() {
    let (handle, mut wait) = stop_handle();
    let survivor = handle.clone();
    drop(handle);
    assert_eq!(poll_once(&mut wait), None);
    survivor.stop(99u64);
    assert_eq!(poll_once(&mut wait), Some(StopReason::Requested(99u64)));
}

#[test]
fn handle_lost_is_not_reported_after_a_stop() {
    let (handle, mut wait) = stop_handle();
    let twin = handle.clone();
    handle.stop(5u16);
    drop(handle);
    drop(twin);
    assert_eq!(wait_for(&mut wait), StopReason::Requested(5u16));
    assert_eq!(poll_once(&mut wait), None);
}

#[test]
fn concurrent_stops_deliver_exactly_one_reason() {
    let pool = ThreadPool::builder().pool_size(8).create().unwrap();
    for _ in 0..50 {
        let (handle, mut wait) = stop_handle::<usize>();
        let finished = Arc::new(AtomicUsize::new(0));
        let callers = 8;
        for i in 0..callers {
            let clone = handle.clone();
            let finished = Arc::clone(&finished);
            pool.spawn_ok(async move {
                clone.stop(i);
                finished.fetch_add(1, Ordering::SeqCst);
            });
        }
        drop(handle);
        let outcome = wait_for(&mut wait);
        assert!(matches!(outcome, StopReason::Requested(i) if i < callers));
        while finished.load(Ordering::SeqCst) < callers {
            std::hint::spin_loop();
        }
        assert!(wait.is_terminated());
        assert_eq!(poll_once(&mut wait), None);
    }
}

#[test]
fn a_new_waiter_is_pending() {
    let (handle, mut wait) = stop_handle::<()>();
    assert!(!wait.is_terminated());
    assert_eq!(poll_once(&mut wait), None);
    assert!(!wait.is_terminated());
    drop(handle);
}

#[test]
fn reasons_need_not_be_cloneable() {
    struct Token(u8);
    let (handle, mut wait) = stop_handle();
    let twin = handle.clone();
    twin.stop(Token(4));
    match wait_for(&mut wait) {
        StopReason::Requested(Token(n)) => assert_eq!(n, 4),
        StopReason::HandleLost => panic!("the reason was lost"),
    }
}

enum Parting {
    Loud(Arc<AtomicUsize>),
    Quiet,
}

impl Drop for Parting {
    fn drop(&mut self) {
        if let Parting::Loud(dropped) = self {
            dropped.fetch_add(1, Ordering::SeqCst);
            panic!("a reason that fails while it is dropped");
        }
    }
}

#[test]
fn stop_goes_on_after_a_reason_failed_while_it_was_dropped() {
    let (handle, wait) = stop_handle::<Parting>();
    drop(wait);

    let dropped = Arc::new(AtomicUsize::new(0));
    let pool = ThreadPool::builder().pool_size(1).create().unwrap();
    let clone = handle.clone();
    let reason = Parting::Loud(Arc::clone(&dropped));
    pool.spawn_ok(async move {
        clone.stop(reason);
    });
    while dropped.load(Ordering::SeqCst) == 0 {
        std::hint::spin_loop();
    }

    handle.stop(Parting::Quiet);
    handle.clone().stop(Parting::Quiet);
}

struct Relay {
    next: Option<StopHandle<Relay>>,
    stops: Arc<AtomicUsize>,
}

impl Drop for Relay {
    fn drop(&mut self) {
        if let Some(handle) = self.next.take() {
            self.stops.fetch_add(1, Ordering::SeqCst);
            handle.stop(Relay { next: None, stops: Arc::clone(&self.stops) });
        }
    }
}

#[test]
fn a_late_reason_may_stop_again_while_it_is_dropped() {
    let stops = Arc::new(AtomicUsize::new(0));
    let (handle, mut wait) = stop_handle::<Relay>();
    handle.stop(Relay { next: None, stops: Arc::clone(&stops) });
    handle.stop(Relay { next: Some(handle.clone()), stops: Arc::clone(&stops) });
    assert_eq!(stops.load(Ordering::SeqCst), 1);
    match wait_for(&mut wait) {
        StopReason::Requested(first) => assert!(first.next.is_none()),
        StopReason::HandleLost => panic!("the first reason was lost"),
    }
}

#[test]
fn a_refused_reason_may_stop_again_while_it_is_dropped() {
    let stops = Arc::new(AtomicUsize::new(0));
    let (handle, wait) = stop_handle::<Relay>();
    drop(wait);
    handle.stop(Relay { next: Some(handle.clone()), stops: Arc::clone(&stops) });
    assert_eq!(stops.load(Ordering::SeqCst), 1);
    handle.stop(Relay { next: None, stops: Arc::clone(&stops) });
}
