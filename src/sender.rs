//! The producing handle and its operations: synchronous and polled sends,
//! waiting for a listening receiver, recovery and closing.
use vstd::prelude::*;

use crate::flags::{
    any_flag, group_flag_bits, has_flag, lemma_flag_consts, lemma_or_zero, s_closes, set_flag,
    with_flag, HatchFlags, CLOSE_ON_SUCCESS, DEFAULT, LOCK, MARK_ON_DROP, OVERWRITE, R_CLOSE,
    S_CLOSE, WAITING,
};
use crate::hatch::{Closed, Hatch, Holder, Poll, RecoverError, Wake};
use crate::receiver::Receiver;

verus! {

broadcast use group_flag_bits;

/// Why a send handed its value back.
#[derive(Clone, Copy, Debug, PartialEq, Eq, Structural)]
pub enum SendErrorKind {
    /// The slot still holds a value and overwriting was off.
    Full,
    /// The receiver is gone.
    Closed,
}

/// A failed send, with the value that was not sent.
#[derive(Debug, PartialEq, Eq)]
pub struct SendError<T> {
    pub kind: SendErrorKind,
    pub value: T,
}

/// The producing half of a channel: its storage kind, and a private byte of
/// options, of what it has seen (`R_CLOSE`: the receiver is gone) and of
/// whether it has closed itself (`S_CLOSE`).
#[derive(Debug)]
pub struct Sender {
    pub holder: Holder,
    pub flags: u8,
}

impl Sender {
    /// It has seen the receiver close.
    pub open spec fn lonely(self) -> bool {
        has_flag(self.flags, R_CLOSE)
    }

    /// It has closed its own side.
    pub open spec fn closed(self) -> bool {
        has_flag(self.flags, S_CLOSE)
    }

    /// `self` with `bit` recorded in its byte.
    pub open spec fn seen(self, bit: u8) -> Sender {
        Sender { flags: self.flags | bit, ..self }
    }

    pub fn new(holder: Holder) -> (r: Sender)
        ensures
            r.holder == holder,
            r.flags == DEFAULT,
    {
        Sender { holder, flags: DEFAULT }
    }

    /// Whether this sender closes itself on its next successful send.
    pub fn close_on_send(self, on: bool) -> (r: Sender)
        ensures
            r == (Sender { flags: with_flag(self.flags, CLOSE_ON_SUCCESS, on), ..self }),
    {
        Sender { flags: set_flag(self.flags, CLOSE_ON_SUCCESS, on), ..self }
    }

    /// Whether this sender's synchronous sends replace a waiting value.
    pub fn overwrite(self, on: bool) -> (r: Sender)
        ensures
            r == (Sender { flags: with_flag(self.flags, OVERWRITE, on), ..self }),
    {
        Sender { flags: set_flag(self.flags, OVERWRITE, on), ..self }
    }

    /// Whether, closing last on borrowed storage, this sender clears it and
    /// marks it reclaimable.
    pub fn mark_on_drop(self, on: bool) -> (r: Sender)
        ensures
            r == (Sender { flags: with_flag(self.flags, MARK_ON_DROP, on), ..self }),
    {
        Sender { flags: set_flag(self.flags, MARK_ON_DROP, on), ..self }
    }

    /// What this sender knows locally: the receiver is gone, or this side
    /// has closed. A `false` may be out of date.
    pub fn is_closed(&self) -> (r: bool)
        ensures
            r == (self.lonely() || self.closed()),
    {
        any_flag(self.flags, R_CLOSE) || any_flag(self.flags, S_CLOSE)
    }

    /// Starts a send of `value` with this sender's options.
    pub fn send<'a, T>(&'a mut self, value: T) -> (r: Sending<'a, T>)
        ensures
            *r.sender == *old(self),
            *final(r.sender) == *final(self),
            r.value == Some(value),
            r.flags == old(self).flags,
    {
        let flags = self.flags;
        Sending { sender: self, value: Some(value), flags }
    }

    /// Starts waiting for the receiver to listen on an empty slot.
    pub fn wait<'a>(&'a mut self) -> (r: Wait<'a>)
        ensures
            *r.sender == *old(self),
            *final(r.sender) == *final(self),
            r.flags == old(self).flags,
    {
        let flags = self.flags;
        Wait { sender: self, flags }
    }

    /// Closes this side (what dropping the handle does). The second side to
    /// close tears the storage down.
    pub fn close<T, W: Wake>(self, hatch: &mut Hatch<T, W>)
        requires
            old(hatch).wf(),
        ensures
            *final(hatch) == sender_close(self, *old(hatch)),
            final(hatch).wf(),
    {
        proof {
            lemma_flag_consts();
        }
        if any_flag(self.flags, S_CLOSE) {
            return ;
        }
        let pre = hatch.lock();
        if pre.is_receiver_closed() {
            hatch.flags.fetch_or(HatchFlags(S_CLOSE));
            self.holder.cleanup(hatch, any_flag(self.flags, MARK_ON_DROP));
        } else {
            hatch.inner.sender = None;
            let waiting = hatch.inner.receiver.take();
            hatch.flags.store(HatchFlags(pre.0 | S_CLOSE));
            hatch.wake(waiting);
        }
    }

    /// Closes this side with one read-modify-write of the word and no lock:
    /// the close for a pair that never leaves callbacks behind, as when it
    /// is used only synchronously. The second side to close tears the
    /// storage down.
    pub fn close_sync<T, W>(self, hatch: &mut Hatch<T, W>)
        requires
            old(hatch).wf(),
        ensures
            *final(hatch) == sender_close_sync(self, *old(hatch)),
            final(hatch).wf(),
    {
        proof {
            lemma_flag_consts();
        }
        if any_flag(self.flags, S_CLOSE) {
            return ;
        }
        let pre = hatch.flags.fetch_or(HatchFlags(S_CLOSE));
        if pre.is_receiver_closed() {
            self.holder.cleanup(hatch, any_flag(self.flags, MARK_ON_DROP));
        }
    }

    /// Once the receiver is gone, resets the storage and mints a new
    /// receiver for it.
    pub fn recover<T, W>(&mut self, hatch: &mut Hatch<T, W>) -> (r: Result<Receiver, RecoverError>)
        ensures
            (*final(self), *final(hatch), r) == sender_recover(*old(self), *old(hatch)),
            old(hatch).wf() ==> final(hatch).wf(),
    {
        proof {
            lemma_flag_consts();
        }
        if any_flag(self.flags, S_CLOSE) {
            return Err(RecoverError::Closed);
        }
        if any_flag(self.flags, R_CLOSE) || hatch.flags.load().is_receiver_closed() {
            self.holder.recycle(hatch);
            self.flags = self.flags & !R_CLOSE;
            Ok(Receiver::new(self.holder))
        } else {
            Err(RecoverError::Live)
        }
    }
}

/// A synchronous send by `s` of `value`, with options `opts`, against `h`:
/// the sender and the hatch afterwards, and what the caller gets.
pub open spec fn send_now<T, W>(
    s: Sender,
    h: Hatch<T, W>, value: T, opts: u8) -> (Sender,
    Hatch<T, W>,
    Result<Option<T>,
    SendError<T>>,
) {
    let closed = SendError { kind: SendErrorKind::Closed, value };
    if s.lonely() || s.closed() {
        (s, h, Err(closed))
    } else if h.r_closed() {
        (s.seen(R_CLOSE), h.lock_kept(), Err(closed))
    } else if h.inner.value is Some && !has_flag(opts, OVERWRITE) {
        (s, h.counted(), Err(SendError { kind: SendErrorKind::Full, value }))
    } else {
        let closes = has_flag(opts, CLOSE_ON_SUCCESS);
        (
            if closes { s.seen(S_CLOSE) } else { s },
            h.with_slot(Some(value), h.inner.sender, None)
                .with_word(if closes { h.word() | S_CLOSE } else { h.word() })
                .counted()
                .woke(h.inner.receiver),
            Ok(h.inner.value),
        )
    }
}

/// One poll of a send of `value`, with options `opts` and callback `w`:
/// the sender and the hatch afterwards, and the poll's outcome. A polled
/// send never overwrites: on a full slot it leaves `w` and waits.
pub open spec fn send_poll<T, W>(
    s: Sender,
    h: Hatch<T, W>, value: T, opts: u8, w: W) -> (Sender,
    Hatch<T, W>,
    Poll<Result<(),
    SendError<T>>>,
) {
    let closed = SendError { kind: SendErrorKind::Closed, value };
    if s.lonely() || s.closed() {
        (s, h, Poll::Ready(Err(closed)))
    } else if h.r_closed() {
        (s.seen(R_CLOSE), h.lock_kept(), Poll::Ready(Err(closed)))
    } else if h.inner.value is Some {
        (s, h.with_slot(h.inner.value, Some(w), h.inner.receiver).counted(), Poll::Pending)
    } else {
        let closes = has_flag(opts, CLOSE_ON_SUCCESS);
        (
            if closes { s.seen(S_CLOSE) } else { s },
            h.with_slot(Some(value), h.inner.sender, None)
                .with_word(if closes { h.word() | S_CLOSE } else { h.word() })
                .counted()
                .woke(h.inner.receiver),
            Poll::Ready(Ok(())),
        )
    }
}

/// One poll of a wait with callback `w`: ready once the receiver has left a
/// callback on an empty slot.
pub open spec fn wait_poll<T, W>(
    s: Sender,
    h: Hatch<T, W>, w: W) -> (Sender,
    Hatch<T, W>,
    Poll<Result<(), Closed>>,
) {
    if s.lonely() || s.closed() {
        (s, h, Poll::Ready(Err(Closed)))
    } else if h.r_closed() {
        (s.seen(R_CLOSE), h.lock_kept(), Poll::Ready(Err(Closed)))
    } else if h.inner.receiver is Some && h.inner.value is None {
        (s, h.counted(), Poll::Ready(Ok(())))
    } else {
        (s, h.with_slot(h.inner.value, Some(w), h.inner.receiver).counted(), Poll::Pending)
    }
}

/// Dropping a sender-side operation: one that left a callback takes it back,
/// unless the receiver is known to be gone.
pub open spec fn sender_cancel<T, W>(s: Sender, h: Hatch<T, W>, opts: u8) -> (Sender, Hatch<T, W>) {
    if !has_flag(opts, WAITING) || s.lonely() || s.closed() {
        (s, h)
    } else if h.r_closed() {
        (s.seen(R_CLOSE), h.lock_kept())
    } else {
        (s, h.with_slot(h.inner.value, None, h.inner.receiver).counted())
    }
}

/// Closing the sender. First to close: set the close bit, drop its own
/// callback, wake the receiver's. Second: tear the storage down.
pub open spec fn sender_close<T, W>(s: Sender, h: Hatch<T, W>) -> Hatch<T, W> {
    if s.closed() {
        h
    } else if h.r_closed() {
        let gone = h.lock_kept().with_word(h.word() | LOCK | S_CLOSE);
        s.holder.cleaned(gone, has_flag(s.flags, MARK_ON_DROP))
    } else {
        h.with_slot(h.inner.value, None, None)
            .with_word(h.word() | S_CLOSE)
            .counted()
            .woke(h.inner.receiver)
    }
}

/// Closing the sender without the lock. First to close: set the close bit.
/// Second: tear the storage down.
pub open spec fn sender_close_sync<T, W>(s: Sender, h: Hatch<T, W>) -> Hatch<T, W> {
    if s.closed() {
        h
    } else if h.r_closed() {
        s.holder.cleaned(h.with_word(h.word() | S_CLOSE), has_flag(s.flags, MARK_ON_DROP))
    } else {
        h.with_word(h.word() | S_CLOSE)
    }
}

/// Recovery by the sender: once the receiver is gone, the storage is reset
/// and a new receiver made for it.
pub open spec fn sender_recover<T, W>(
    s: Sender,
    h: Hatch<T, W>) -> (Sender,
    Hatch<T, W>,
    Result<Receiver, RecoverError>,
) {
    if s.closed() {
        (s, h, Err(RecoverError::Closed))
    } else if s.lonely() || h.r_closed() {
        (
            Sender { flags: s.flags & !R_CLOSE, ..s },
            h.with_slot(None, None, None).with_word(DEFAULT),
            Ok(Receiver { holder: s.holder, flags: DEFAULT }),
        )
    } else {
        (s, h, Err(RecoverError::Live))
    }
}

/// A send in flight: the value not yet delivered and a snapshot of options.
pub struct Sending<'a, T> {
    pub sender: &'a mut Sender,
    pub value: Option<T>,
    pub flags: u8,
}

impl<'a, T> Sending<'a, T> {
    /// Whether a synchronous attempt may replace a waiting value.
    pub fn overwrite(self, on: bool) -> (r: Sending<'a, T>)
        ensures
            *r.sender == *old(self.sender),
            *final(r.sender) == *final(self.sender),
            r.value == self.value,
            r.flags == with_flag(self.flags, OVERWRITE, on),
    {
        let flags = set_flag(self.flags, OVERWRITE, on);
        Sending { sender: self.sender, value: self.value, flags }
    }

    /// Whether the sender closes itself if this send succeeds.
    pub fn close_on_send(self, on: bool) -> (r: Sending<'a, T>)
        ensures
            *r.sender == *old(self.sender),
            *final(r.sender) == *final(self.sender),
            r.value == self.value,
            r.flags == with_flag(self.flags, CLOSE_ON_SUCCESS, on),
    {
        let flags = set_flag(self.flags, CLOSE_ON_SUCCESS, on);
        Sending { sender: self.sender, value: self.value, flags }
    }

    /// Tries once, without waiting. On success, gives back the value that
    /// was overwritten, if any.
    pub fn now<W: Wake>(self, hatch: &mut Hatch<T, W>) -> (r: Result<Option<T>, SendError<T>>)
        requires
            old(hatch).wf(),
            self.value is Some,
        ensures
            (*final(self.sender), *final(hatch), r) == send_now(
                *old(self.sender),
                *old(hatch),
                self.value->Some_0,
                self.flags,
            ),
            final(hatch).wf(),
    {
        proof {
            lemma_flag_consts();
        }
        let Sending { sender, value, flags } = self;
        let value = value.unwrap();
        if sender.is_closed() {
            return Err(SendError { kind: SendErrorKind::Closed, value });
        }
        let pre = hatch.lock();
        if pre.is_receiver_closed() {
            sender.flags = sender.flags | R_CLOSE;
            return Err(SendError { kind: SendErrorKind::Closed, value });
        }
        if hatch.inner.value.is_some() && !any_flag(flags, OVERWRITE) {
            hatch.flags.store(pre);
            return Err(SendError { kind: SendErrorKind::Full, value });
        }
        let previous = hatch.inner.value.take();
        hatch.inner.value = Some(value);
        let waiting = hatch.inner.receiver.take();
        hatch.flags.store(HatchFlags(pre.0 | s_closes(flags)));
        proof {
            lemma_or_zero(pre.0);
        }
        if any_flag(flags, CLOSE_ON_SUCCESS) {
            sender.flags = sender.flags | S_CLOSE;
        }
        hatch.wake(waiting);
        Ok(previous)
    }

    /// Polls once, leaving `w` to be woken if the slot is still full.
    pub fn poll<W: Wake>(&mut self, hatch: &mut Hatch<T, W>, w: W) -> (r: Poll<Result<(), SendError<T>>>)
        requires
            old(hatch).wf(),
            old(self).value is Some,
        ensures
            (*final(self).sender, *final(hatch), r) == send_poll(
                *old(self).sender,
                *old(hatch),
                old(self).value->Some_0,
                old(self).flags,
                w,
            ),
            final(hatch).wf(),
            final(self).value == if r.pending() { old(self).value } else { None },
            final(self).flags == if r.pending() { old(self).flags | WAITING } else { old(self).flags },
            *final(final(self).sender) == *final(old(self).sender),
    {
        proof {
            lemma_flag_consts();
        }
        let value = self.value.take().unwrap();
        if self.sender.is_closed() {
            return Poll::Ready(Err(SendError { kind: SendErrorKind::Closed, value }));
        }
        let pre = hatch.lock();
        if pre.is_receiver_closed() {
            self.sender.flags = self.sender.flags | R_CLOSE;
            return Poll::Ready(Err(SendError { kind: SendErrorKind::Closed, value }));
        }
        if hatch.inner.value.is_some() {
            hatch.inner.sender = Some(w);
            hatch.flags.store(pre);
            self.value = Some(value);
            self.flags = self.flags | WAITING;
            return Poll::Pending;
        }
        hatch.inner.value = Some(value);
        let waiting = hatch.inner.receiver.take();
        hatch.flags.store(HatchFlags(pre.0 | s_closes(self.flags)));
        proof {
            lemma_or_zero(pre.0);
        }
        if any_flag(self.flags, CLOSE_ON_SUCCESS) {
            self.sender.flags = self.sender.flags | S_CLOSE;
        }
        hatch.wake(waiting);
        Poll::Ready(Ok(()))
    }

    /// Drops the operation. If it left a callback, takes it back.
    pub fn cancel<W>(self, hatch: &mut Hatch<T, W>)
        requires
            old(hatch).wf(),
        ensures
            (*final(self.sender), *final(hatch)) == sender_cancel(
                *old(self.sender),
                *old(hatch),
                self.flags,
            ),
            final(hatch).wf(),
    {
        withdraw(self.sender, hatch, self.flags)
    }
}

/// Takes back a callback that a sender-side operation with options `opts`
/// left behind.
fn withdraw<T, W>(sender: &mut Sender, hatch: &mut Hatch<T, W>, opts: u8)
    requires
        old(hatch).wf(),
    ensures
        (*final(sender), *final(hatch)) == sender_cancel(*old(sender), *old(hatch), opts),
        final(hatch).wf(),
{
    proof {
        lemma_flag_consts();
    }
    if !any_flag(opts, WAITING) || sender.is_closed() {
        return ;
    }
    let pre = hatch.lock();
    if pre.is_receiver_closed() {
        sender.flags = sender.flags | R_CLOSE;
        return ;
    }
    hatch.inner.sender = None;
    hatch.flags.store(pre);
}

/// A wait for the receiver to be ready for a value.
pub struct Wait<'a> {
    pub sender: &'a mut Sender,
    pub flags: u8,
}

impl<'a> Wait<'a> {
    /// Polls once, leaving `w` to be woken when the receiver starts
    /// listening.
    pub fn poll<T, W>(&mut self, hatch: &mut Hatch<T, W>, w: W) -> (r: Poll<Result<(), Closed>>)
        requires
            old(hatch).wf(),
        ensures
            (*final(self).sender, *final(hatch), r) == wait_poll(*old(self).sender, *old(hatch), w),
            final(hatch).wf(),
            final(self).flags == if r.pending() { old(self).flags | WAITING } else { old(self).flags },
            *final(final(self).sender) == *final(old(self).sender),
    {
        proof {
            lemma_flag_consts();
        }
        if self.sender.is_closed() {
            return Poll::Ready(Err(Closed));
        }
        let pre = hatch.lock();
        if pre.is_receiver_closed() {
            self.sender.flags = self.sender.flags | R_CLOSE;
            return Poll::Ready(Err(Closed));
        }
        if hatch.inner.receiver.is_some() && hatch.inner.value.is_none() {
            hatch.flags.store(pre);
            return Poll::Ready(Ok(()));
        }
        hatch.inner.sender = Some(w);
        hatch.flags.store(pre);
        self.flags = self.flags | WAITING;
        Poll::Pending
    }

    /// Drops the wait. If it left a callback, takes it back.
    pub fn cancel<T, W>(self, hatch: &mut Hatch<T, W>)
        requires
            old(hatch).wf(),
        ensures
            (*final(self.sender), *final(hatch)) == sender_cancel(
                *old(self.sender),
                *old(hatch),
                self.flags,
            ),
            final(hatch).wf(),
    {
        withdraw(self.sender, hatch, self.flags)
    }
}

} // verus!
