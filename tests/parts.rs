//! The flag word, storage reuse, recovery and cancellation.
use std::cell::Cell;
use std::rc::Rc;

use async_hatch::flags::{
    any_flag, no_flag, r_closes, s_closes, set_flag, toggle_flag, AtomicHatchFlags, HatchFlags,
    CLOSE_ON_SUCCESS, LOCK, OVERWRITE, RECLAIMABLE, R_CLOSE, S_CLOSE,
};
use async_hatch::{
    delay, hatch, oneshot, ref_hatch, Closed, Hatch, Poll, RecoverError, SendErrorKind, Wake,
};

#[derive(Clone, Default)]
struct Task(Rc<Cell<usize>>);

impl Wake for Task {
    fn wake(self) {
        self.0.set(self.0.get() + 1);
    }
}

#[test]
fn close_bits_follow_close_on_success() {
    assert_eq!(R_CLOSE, r_closes(CLOSE_ON_SUCCESS));
    assert_eq!(0, r_closes(OVERWRITE | LOCK));
    assert_eq!(S_CLOSE, s_closes(CLOSE_ON_SUCCESS | OVERWRITE));
    assert_eq!(0, s_closes(0));
}

#[test]
fn flag_helpers() {
    assert_eq!(4, toggle_flag(5, 1, true));
    assert_eq!(5, toggle_flag(5, 1, false));
    assert_eq!(7, toggle_flag(5, 2, true));
    assert_eq!(CLOSE_ON_SUCCESS | OVERWRITE, set_flag(OVERWRITE, CLOSE_ON_SUCCESS, true));
    assert_eq!(OVERWRITE, set_flag(OVERWRITE | CLOSE_ON_SUCCESS, CLOSE_ON_SUCCESS, false));
    assert!(any_flag(6, R_CLOSE));
    assert!(!any_flag(6, LOCK));
    assert!(no_flag(6, LOCK));
    assert!(!no_flag(6, S_CLOSE));
}

#[test]
fn hatch_flags_accessors() {
    let f = HatchFlags::new();
    assert!(!f.is_lock() && !f.is_receiver_closed() && !f.is_sender_closed());
    assert!(f.lock(true).is_lock());
    assert!(!f.lock(true).lock(true).is_lock());
    assert!(f.receiver_closed(true).is_receiver_closed());
    assert!(f.sender_closed(true).is_sender_closed());
    assert_eq!(S_CLOSE, f.sender_closed(true).sender_closed_bit());
    assert_eq!(0, f.sender_closed(true).receiver_closed_bit());
    assert_eq!(R_CLOSE, HatchFlags(R_CLOSE | LOCK).receiver_closed_bit());
    assert!(HatchFlags::reclaimable().is_reclaimable());
    assert_eq!(RECLAIMABLE, HatchFlags::reclaimable().0);
    assert!(!f.is_reclaimable());
}

#[test]
fn atomic_word_operations() {
    let mut a = AtomicHatchFlags::new(HatchFlags(R_CLOSE));
    assert_eq!(HatchFlags(R_CLOSE), a.fetch_or(HatchFlags(LOCK)));
    assert_eq!(HatchFlags(R_CLOSE | LOCK), a.load());
    assert_eq!(HatchFlags(R_CLOSE | LOCK), a.fetch_xor(HatchFlags(LOCK)));
    assert_eq!(HatchFlags(R_CLOSE), a.load());
    a.store(HatchFlags(S_CLOSE));
    assert_eq!(S_CLOSE, a.word);
}

#[test]
fn lock_returns_word_before() {
    let mut h: Hatch<i32, Task> = Hatch::new();
    let before = h.lock();
    assert!(!before.is_lock());
    assert!(h.flags.load().is_lock());
}

#[test]
fn recover_round_trip() {
    let (mut h, mut s, mut r) = hatch::<i32, Task>();
    assert_eq!(Ok(None), s.send(1).now(&mut h));
    assert_eq!(Ok(Some(1)), r.receive().now(&mut h));
    s.close(&mut h);
    let mut s2 = r.recover(&mut h).unwrap();
    assert_eq!(Ok(None), s2.send(2).now(&mut h));
    assert_eq!(Ok(Some(2)), r.receive().now(&mut h));
}

#[test]
fn recover_needs_partner_gone() {
    let (mut h, mut s, mut r) = hatch::<i32, Task>();
    assert_eq!(Err(RecoverError::Live), r.recover(&mut h).map(|_| ()));
    assert_eq!(Err(RecoverError::Live), s.recover(&mut h).map(|_| ()));
    assert_eq!(Ok(None), s.send(7).now(&mut h));
    assert_eq!(Ok(Some(7)), r.receive().close_on_receive(true).now(&mut h));
    assert_eq!(Err(RecoverError::Closed), r.recover(&mut h).map(|_| ()));
    let mut r2 = s.recover(&mut h).unwrap();
    assert!(!s.is_closed());
    assert_eq!(Ok(None), s.send(8).now(&mut h));
    assert_eq!(Ok(Some(8)), r2.receive().now(&mut h));
}

#[test]
fn marked_borrowed_storage_is_reclaimed() {
    let mut h: Hatch<i32, Task> = Hatch::default();
    let (s, r) = ref_hatch(&mut h);
    let (mut s, r) = (s.mark_on_drop(true), r.mark_on_drop(true));
    assert_eq!(Ok(None), s.send(3).now(&mut h));
    assert!(!h.reclaim());
    s.close(&mut h);
    assert!(!h.reclaim());
    r.close(&mut h);
    assert!(h.flags.load().is_reclaimable());
    assert!(h.inner.value.is_none());
    assert!(h.reclaim());
    assert_eq!(HatchFlags::new(), h.flags.load());
    let (mut s, mut r) = ref_hatch(&mut h);
    assert_eq!(Ok(None), s.send(4).now(&mut h));
    assert_eq!(Ok(Some(4)), r.receive().now(&mut h));
}

#[test]
fn unmarked_borrowed_storage_keeps_its_value() {
    let mut h: Hatch<i32, Task> = Hatch::default();
    let (mut s, r) = ref_hatch(&mut h);
    assert_eq!(Ok(None), s.send(5).now(&mut h));
    r.close(&mut h);
    s.close(&mut h);
    assert_eq!(Some(5), h.inner.value);
    assert!(!h.reclaim());
    h.reclaim_unchecked();
    assert!(h.inner.value.is_none());
    assert_eq!(0, h.flags.word);
}

#[test]
fn owned_storage_is_freed_by_the_last_close() {
    let (mut h, mut s, r) = hatch::<i32, Task>();
    assert_eq!(Ok(None), s.send(6).now(&mut h));
    s.close(&mut h);
    assert_eq!(Some(6), h.inner.value);
    r.close(&mut h);
    assert!(h.inner.value.is_none());
    assert!(h.flags.load().is_sender_closed() && h.flags.load().is_receiver_closed());
}

#[test]
fn cancelled_receive_is_not_woken() {
    let (mut h, mut s, mut r) = hatch::<i32, Task>();
    let t = Task::default();
    let mut f = r.receive();
    assert!(f.poll(&mut h, t.clone()).is_pending());
    assert!(h.inner.receiver.is_some());
    f.cancel(&mut h);
    assert!(h.inner.receiver.is_none());
    assert_eq!(Ok(None), s.send(9).now(&mut h));
    assert_eq!(0, t.0.get());
}

#[test]
fn cancelled_send_is_not_woken() {
    let (mut h, mut s, mut r) = hatch::<i32, Task>();
    assert_eq!(Ok(None), s.send(1).now(&mut h));
    let t = Task::default();
    let mut f = s.send(2);
    assert!(f.poll(&mut h, t.clone()).is_pending());
    f.cancel(&mut h);
    assert_eq!(Ok(Some(1)), r.receive().now(&mut h));
    assert_eq!(0, t.0.get());
    assert_eq!(Ok(None), r.receive().now(&mut h));
}

#[test]
fn lonely_receiver_leaves_the_word_alone() {
    let (mut h, s, mut r) = hatch::<i32, Task>();
    s.close(&mut h);
    assert_eq!(Err(Closed), r.receive().now(&mut h));
    assert!(r.is_closed());
    let before = h.flags.load();
    assert_eq!(Err(Closed), r.receive().now(&mut h));
    assert_eq!(before, h.flags.load());
}

#[test]
fn oneshot_sends_once() {
    let (mut h, mut s, mut r) = oneshot::<i32, Task>();
    assert_eq!(Ok(None), s.send(1).now(&mut h));
    assert!(s.is_closed());
    let e = s.send(2).now(&mut h).unwrap_err();
    assert_eq!(SendErrorKind::Closed, e.kind);
    assert_eq!(2, e.value);
    assert_eq!(Ok(Some(1)), r.receive().now(&mut h));
    assert_eq!(Err(Closed), r.receive().now(&mut h));
}

#[test]
fn sender_overwrite_option() {
    let (mut h, s, mut r) = hatch::<i32, Task>();
    let mut s = s.overwrite(true);
    assert_eq!(Ok(None), s.send(1).now(&mut h));
    assert_eq!(Ok(Some(1)), s.send(2).now(&mut h));
    assert_eq!(Ok(Some(2)), r.receive().now(&mut h));
    let mut s = s.overwrite(false);
    assert_eq!(Ok(None), s.send(3).now(&mut h));
    assert_eq!(SendErrorKind::Full, s.send(4).now(&mut h).unwrap_err().kind);
}

#[test]
fn poll_reports_pending() {
    assert!(Poll::<i32>::Pending.is_pending());
    assert!(!Poll::Ready(1).is_pending());
}

#[test]
fn delay_gives_way_once() {
    let t = Task::default();
    let mut d = delay();
    assert!(d.poll(t.clone()).is_pending());
    assert_eq!(1, t.0.get());
    assert_eq!(Poll::Ready(()), d.poll(t.clone()));
    assert_eq!(Poll::Ready(()), d.poll(t.clone()));
    assert_eq!(1, t.0.get());
}

#[test]
fn well_formed_word() {
    let mut h: Hatch<i32, Task> = Hatch::new();
    assert!(h.well_formed());
    h.flags.store(HatchFlags(LOCK));
    assert!(!h.well_formed());
    h.flags.store(HatchFlags(LOCK | S_CLOSE));
    assert!(h.well_formed());
}

#[test]
fn sync_close_is_seen_by_the_partner() {
    let (mut h, mut s, r) = hatch::<i32, Task>();
    r.close_sync(&mut h);
    assert!(h.flags.load().is_receiver_closed());
    assert!(!h.flags.load().is_lock());
    let e = s.send(1).now(&mut h).unwrap_err();
    assert_eq!(SendErrorKind::Closed, e.kind);
    assert!(s.is_closed());

    let (mut h, s, mut r) = hatch::<i32, Task>();
    s.close_sync(&mut h);
    assert_eq!(Err(Closed), r.receive().now(&mut h));
}

#[test]
fn sync_close_second_marks_for_reuse() {
    let mut h: Hatch<i32, Task> = Hatch::default();
    let (s, r) = ref_hatch(&mut h);
    let (mut s, r) = (s.mark_on_drop(true), r.mark_on_drop(true));
    assert_eq!(Ok(None), s.send(3).now(&mut h));
    r.close_sync(&mut h);
    assert_eq!(Some(3), h.inner.value);
    s.close_sync(&mut h);
    assert!(h.flags.load().is_reclaimable());
    assert!(h.inner.value.is_none());
    assert!(h.reclaim());
}
