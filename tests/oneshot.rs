//! Single-use channels: each handle closes itself on its first success.
use std::cell::Cell;
use std::rc::Rc;

use async_hatch::{oneshot, Closed, Hatch, Poll, Receiver, SendErrorKind, Sender, Wake};

/// A task's wake callback: counts how often it was woken.
#[derive(Clone, Default)]
struct Task(Rc<Cell<usize>>);

impl Wake for Task {
    fn wake(self) {
        self.0.set(self.0.get() + 1);
    }
}

fn pair<T>() -> (Hatch<T, Task>, Sender, Receiver) {
    oneshot()
}

#[test]
fn send_recv() {
    let (mut h, mut s, mut r) = pair::<i32>();
    s.send(42).now(&mut h).unwrap();
    let t = Task::default();
    assert_eq!(Poll::Ready(Ok(42)), r.receive().poll(&mut h, t));
}

#[test]
fn recv_send() {
    let (mut h, mut s, mut r) = pair::<i32>();
    let t = Task::default();
    let mut f = r.receive();
    assert!(f.poll(&mut h, t.clone()).is_pending());
    s.send(42).now(&mut h).unwrap();
    assert_eq!(1, t.0.get());
    assert_eq!(Poll::Ready(Ok(42)), f.poll(&mut h, t.clone()));
}

#[test]
fn close_recv() {
    let (mut h, s, mut r) = pair::<i32>();
    s.close(&mut h);
    assert_eq!(Poll::Ready(Err(Closed)), r.receive().poll(&mut h, Task::default()));
}

#[test]
fn close_send() {
    let (mut h, mut s, r) = pair::<bool>();
    r.close(&mut h);
    let e = s.send(true).now(&mut h).unwrap_err();
    assert_eq!(SendErrorKind::Closed, e.kind);
    assert!(e.value);
}

#[test]
fn send_close() {
    let (mut h, mut s, r) = pair::<bool>();
    s.send(true).now(&mut h).unwrap();
    r.close(&mut h);
}

#[test]
fn recv_close() {
    let (mut h, s, mut r) = pair::<bool>();
    let t = Task::default();
    let mut f = r.receive();
    assert!(f.poll(&mut h, t.clone()).is_pending());
    s.close(&mut h);
    assert_eq!(1, t.0.get());
    assert_eq!(Poll::Ready(Err(Closed)), f.poll(&mut h, t.clone()));
}

#[test]
fn test_wait_close() {
    let (mut h, mut s, r) = pair::<bool>();
    let t = Task::default();
    let mut f = s.wait();
    assert!(f.poll(&mut h, t.clone()).is_pending());
    r.close(&mut h);
    assert_eq!(Poll::Ready(Err(Closed)), f.poll(&mut h, t.clone()));
}

#[test]
fn wait_recv_close() {
    let (mut h, mut s, mut r) = pair::<bool>();
    let st = Task::default();
    let rt = Task::default();
    let mut g = r.receive();
    {
        let mut f = s.wait();
        assert!(f.poll(&mut h, st.clone()).is_pending());
        assert!(g.poll(&mut h, rt.clone()).is_pending());
        assert_eq!(Poll::Ready(Ok(())), f.poll(&mut h, st.clone()));
    }
    s.close(&mut h);
    assert_eq!(Poll::Ready(Err(Closed)), g.poll(&mut h, rt.clone()));
}

#[test]
fn wait_recv_send() {
    let (mut h, mut s, mut r) = pair::<i32>();
    let st = Task::default();
    let rt = Task::default();
    let mut g = r.receive();
    {
        let mut f = s.wait();
        assert!(f.poll(&mut h, st.clone()).is_pending());
        assert!(g.poll(&mut h, rt.clone()).is_pending());
        assert_eq!(Poll::Ready(Ok(())), f.poll(&mut h, st.clone()));
    }
    assert_eq!(Ok(None), s.send(42).now(&mut h));
    assert_eq!(Poll::Ready(Ok(42)), g.poll(&mut h, rt.clone()));
}

#[test]
fn close_wait() {
    let (mut h, mut s, r) = pair::<bool>();
    r.close(&mut h);
    assert_eq!(Poll::Ready(Err(Closed)), s.wait().poll(&mut h, Task::default()));
}
