use harrow::meguri::cq::CompletionQueue;
use harrow::meguri::dispatcher::{CompletionAction, Dispatcher};
use harrow::meguri::error::MeguriError;
use harrow::meguri::ops::{Cancel, CancelResult, Read, Recv, Send, Timeout, Write};
use harrow::meguri::reclaim::{ReclaimPool, Reclaimable};
use harrow::meguri::syscall::{syscall_outcome, IoUringParams, IoUringSqe, IORING_OFF_CQ_RING};
use std::sync::atomic::{AtomicBool, AtomicI32, Ordering};
use std::sync::Arc;
use std::task::{Wake, Waker};
use std::time::Duration;

#[test]
fn cq_ready_counts_and_wraps() {
    let mut cq = CompletionQueue::new(7, 5);
    assert_eq!(cq.ready(5), 0);
    assert_eq!(cq.peek_slot(5), None);
    assert_eq!(cq.ready(8), 3);
    assert_eq!(cq.peek_slot(8), Some(5));
    cq.advance();
    assert_eq!(cq.head(), 6);
    assert_eq!(cq.ready(8), 2);

    let mut near_wrap = CompletionQueue::new(7, u32::MAX);
    assert_eq!(near_wrap.ready(1), 2);
    assert_eq!(near_wrap.peek_slot(1), Some(7));
    near_wrap.advance();
    assert_eq!(near_wrap.head(), 0);
    assert_eq!(near_wrap.peek_slot(1), Some(0));
    near_wrap.advance();
    assert_eq!(near_wrap.peek_slot(1), None);
    assert_eq!(near_wrap.ring_mask(), 7);
}

#[test]
fn cq_draining_visits_each_slot_once() {
    let mut cq = CompletionQueue::new(3, 2);
    let tail = 6;
    let mut slots = Vec::new();
    while let Some(slot) = cq.peek_slot(tail) {
        slots.push(slot);
        cq.advance();
    }
    assert_eq!(slots, vec![2, 3, 0, 1]);
    assert_eq!(cq.ready(tail), 0);
}

#[test]
fn syscall_return_values() {
    assert_eq!(syscall_outcome(3), Ok(3));
    assert_eq!(syscall_outcome(0), Ok(0));
    assert_eq!(syscall_outcome(-22), Err(22));
    assert_eq!(syscall_outcome(-1), Err(1));
}

#[test]
fn zeroed_sqe_has_no_bits_set() {
    let sqe = IoUringSqe::zeroed();
    assert_eq!(sqe.opcode, 0);
    assert_eq!(sqe.flags, 0);
    assert_eq!(sqe.fd, 0);
    assert_eq!(sqe.off, 0);
    assert_eq!(sqe.addr, 0);
    assert_eq!(sqe.len, 0);
    assert_eq!(sqe.user_data, 0);
    assert_eq!(sqe.splice_fd_in, 0);
    assert_eq!(sqe.addr3, 0);
    assert_eq!(sqe.__pad2, 0);
    let params = IoUringParams::default();
    assert_eq!(params.sq_entries, 0);
    assert_eq!(params.cq_off.cqes, 0);
    assert_eq!(IORING_OFF_CQ_RING, 0x8000000);
}

#[test]
fn error_messages() {
    assert_eq!(MeguriError::SqFull.message(), "submission queue is full");
    assert_eq!(MeguriError::Cancelled.message(), "operation was cancelled");
    assert_eq!(
        MeguriError::InvalidArgument("bad fd").message(),
        "invalid argument: bad fd"
    );
    let io: MeguriError = std::io::Error::new(std::io::ErrorKind::Other, "boom").into();
    assert!(matches!(io, MeguriError::Io(_)));
    assert_eq!(io.message(), "io_uring error: boom");
}

#[test]
fn fresh_operations_are_pending() {
    let mut cancel = Cancel::new(42);
    assert!(cancel.poll_ready().is_none());
    let mut timeout = Timeout::new(Duration::from_millis(5));
    assert!(timeout.poll_ready().is_none());
    let mut read = Read::new(3, bytes::BytesMut::with_capacity(16), 0);
    assert!(read.poll_ready().is_none());
    let mut write = Write::new(3, bytes::Bytes::from_static(b"hi"), 0);
    assert!(write.poll_ready().is_none());
    let mut recv = Recv::new(4, bytes::BytesMut::new(), 0);
    assert!(recv.poll_ready().is_none());
    let mut send = Send::new(4, bytes::Bytes::new(), 0);
    assert!(send.poll_ready().is_none());
    assert_eq!(CancelResult::NotFound, CancelResult::NotFound);
    assert_ne!(CancelResult::Cancelled, CancelResult::AlreadyStarted);
}

struct Buffer {
    seen: Arc<AtomicI32>,
}

impl Reclaimable for Buffer {
    fn reclaim(self: Box<Self>, result: i32) {
        self.seen.store(result, Ordering::SeqCst);
    }
}

struct Flag(AtomicBool);

impl Wake for Flag {
    fn wake(self: Arc<Self>) {
        self.0.store(true, Ordering::SeqCst);
    }
}

#[test]
fn reclaim_pool_registers_and_reclaims() {
    let seen = Arc::new(AtomicI32::new(0));
    let mut pool = ReclaimPool::new();
    assert!(pool.is_empty());
    let key = pool.register(Buffer { seen: seen.clone() });
    assert_eq!(pool.len(), 1);
    pool.reclaim(key + 100, 9);
    assert_eq!(pool.len(), 1);
    assert_eq!(seen.load(Ordering::SeqCst), 0);
    pool.reclaim(key, 17);
    assert!(pool.is_empty());
    assert_eq!(seen.load(Ordering::SeqCst), 17);
    assert!(ReclaimPool::default().is_empty());
}

#[test]
fn dispatcher_wakes_pending_operations() {
    let flag = Arc::new(Flag(AtomicBool::new(false)));
    let waker = Waker::from(flag.clone());
    let mut dispatcher = Dispatcher::new();
    let mut pool = ReclaimPool::new();
    let ud = dispatcher.register(Some(waker));
    assert!(dispatcher.is_pending(ud));
    dispatcher.complete(ud, 0, 0, &mut pool);
    assert!(!dispatcher.is_pending(ud));
    assert!(flag.0.load(Ordering::SeqCst));
    // A duplicate completion is ignored.
    dispatcher.complete(ud, 0, 0, &mut pool);
    assert!(pool.is_empty());
}

#[test]
fn dispatcher_reclaims_dropped_operations() {
    let seen = Arc::new(AtomicI32::new(0));
    let mut dispatcher = Dispatcher::default();
    let mut pool = ReclaimPool::new();
    let ud = dispatcher.register(None);
    let key = pool.register(Buffer { seen: seen.clone() });
    dispatcher.mark_dropped(ud, key);
    assert!(dispatcher.is_pending(ud));
    dispatcher.complete(ud, -125, 0, &mut pool);
    assert!(!dispatcher.is_pending(ud));
    assert!(pool.is_empty());
    assert_eq!(seen.load(Ordering::SeqCst), -125);
}

#[test]
fn dispatcher_updates_wakers_of_pending_operations() {
    let first = Arc::new(Flag(AtomicBool::new(false)));
    let second = Arc::new(Flag(AtomicBool::new(false)));
    let mut dispatcher = Dispatcher::new();
    let mut pool = ReclaimPool::new();
    let ud = dispatcher.register(None);
    dispatcher.update_waker(ud, &Waker::from(first.clone()));
    dispatcher.update_waker(ud, &Waker::from(second.clone()));
    dispatcher.update_waker(ud + 7, &Waker::from(first.clone()));
    dispatcher.complete(ud, 1, 0, &mut pool);
    assert!(second.0.load(Ordering::SeqCst));
    assert!(!first.0.load(Ordering::SeqCst));
    // Unknown user_data (internal operations) is ignored.
    dispatcher.complete(12345, 0, 0, &mut pool);
    dispatcher.mark_dropped(12345, 1);
    assert!(!dispatcher.is_pending(12345));
}

#[test]
fn completions_say_what_they_call_for() {
    let flag = Arc::new(Flag(AtomicBool::new(false)));
    let mut dispatcher = Dispatcher::new();
    let woken = dispatcher.register(Some(Waker::from(flag.clone())));
    let silent = dispatcher.register(None);
    let dropped = dispatcher.register(None);
    dispatcher.mark_dropped(dropped, 7);
    assert!(matches!(dispatcher.take_completion(woken, 3), CompletionAction::Wake(_)));
    assert!(matches!(dispatcher.take_completion(silent, 3), CompletionAction::Nothing));
    assert!(matches!(
        dispatcher.take_completion(dropped, -4),
        CompletionAction::Reclaim { reclaim_key: 7, result: -4 }
    ));
    assert!(matches!(dispatcher.take_completion(dropped, -4), CompletionAction::Nothing));
    assert!(!dispatcher.is_pending(woken) && !dispatcher.is_pending(silent));
    assert!(!flag.0.load(Ordering::SeqCst));
}

#[test]
fn taken_resources_carry_their_result() {
    let seen = Arc::new(AtomicI32::new(0));
    let mut pool = ReclaimPool::new();
    let key = pool.register(Buffer { seen: seen.clone() });
    assert!(pool.take(key + 1, 5).is_none());
    let taken = pool.take(key, 5).unwrap();
    assert!(pool.is_empty());
    assert_eq!((taken.key(), taken.result()), (key, 5));
    assert_eq!(seen.load(Ordering::SeqCst), 0);
    taken.finish();
    assert_eq!(seen.load(Ordering::SeqCst), 5);
}
