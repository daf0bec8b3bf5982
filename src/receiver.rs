//! The consuming handle and its operations: synchronous and polled receives,
//! recovery and closing.
use vstd::prelude::*;

use crate::flags::{
    any_flag, group_flag_bits, has_flag, lemma_flag_consts, lemma_or_zero, r_closes, set_flag,
    with_flag, HatchFlags, CLOSE_ON_SUCCESS, DEFAULT, LOCK, MARK_ON_DROP, R_CLOSE, S_CLOSE,
    WAITING,
};
use crate::hatch::{Closed, Hatch, Holder, Poll, RecoverError, Wake};
use crate::sender::Sender;

verus! {

broadcast use group_flag_bits;

/// The consuming half of a channel: its storage kind, and a private byte of
/// options, of what it has seen (`S_CLOSE`: the sender is gone) and of
/// whether it has closed itself (`R_CLOSE`).
#[derive(Debug)]
pub struct Receiver {
    pub holder: Holder,
    pub flags: u8,
}

impl Receiver {
    /// It has seen the sender close.
    pub open spec fn lonely(self) -> bool {
        has_flag(self.flags, S_CLOSE)
    }

    /// It has closed its own side.
    pub open spec fn closed(self) -> bool {
        has_flag(self.flags, R_CLOSE)
    }

    /// `self` with `bit` recorded in its byte.
    pub open spec fn seen(self, bit: u8) -> Receiver {
        Receiver { flags: self.flags | bit, ..self }
    }

    pub fn new(holder: Holder) -> (r: Receiver)
        ensures
            r.holder == holder,
            r.flags == DEFAULT,
    {
        Receiver { holder, flags: DEFAULT }
    }

    /// Whether this receiver closes itself on its next receive of a value.
    pub fn close_on_receive(self, on: bool) -> (r: Receiver)
        ensures
            r == (Receiver { flags: with_flag(self.flags, CLOSE_ON_SUCCESS, on), ..self }),
    {
        Receiver { flags: set_flag(self.flags, CLOSE_ON_SUCCESS, on), ..self }
    }

    /// Whether, closing last on borrowed storage, this receiver clears it
    /// and marks it reclaimable.
    pub fn mark_on_drop(self, on: bool) -> (r: Receiver)
        ensures
            r == (Receiver { flags: with_flag(self.flags, MARK_ON_DROP, on), ..self }),
    {
        Receiver { flags: set_flag(self.flags, MARK_ON_DROP, on), ..self }
    }

    /// What this receiver knows locally: the sender is gone, or this side
    /// has closed. A `false` may be out of date.
    pub fn is_closed(&self) -> (r: bool)
        ensures
            r == (self.lonely() || self.closed()),
    {
        any_flag(self.flags, S_CLOSE) || any_flag(self.flags, R_CLOSE)
    }

    /// Starts a receive with this receiver's options.
    pub fn receive<'a>(&'a mut self) -> (r: Receiving<'a>)
        ensures
            *r.receiver == *old(self),
            *final(r.receiver) == *final(self),
            r.flags == old(self).flags,
    {
        let flags = self.flags;
        Receiving { receiver: self, flags }
    }

    /// Closes this side (what dropping the handle does). The second side to
    /// close tears the storage down.
    pub fn close<T, W: Wake>(self, hatch: &mut Hatch<T, W>)
        requires
            old(hatch).wf(),
        ensures
            *final(hatch) == receiver_close(self, *old(hatch)),
            final(hatch).wf(),
    {
        proof {
            lemma_flag_consts();
        }
        if any_flag(self.flags, R_CLOSE) {
            return ;
        }
        let pre = hatch.lock();
        if pre.is_sender_closed() {
            hatch.flags.fetch_or(HatchFlags(R_CLOSE));
            self.holder.cleanup(hatch, any_flag(self.flags, MARK_ON_DROP));
        } else {
            hatch.inner.receiver = None;
            let waiting = hatch.inner.sender.take();
            hatch.flags.store(HatchFlags(pre.0 | R_CLOSE));
            hatch.wake(waiting);
        }
    }

    /// Closes this side with one read-modify-write of the word and no lock:
    /// the close for a pair that never leaves callbacks behind, as when it
    /// is used only synchronously. The second side to close tears the
    /// storage down.
    pub fn close_sync<T, W>(self, hatch: &mut Hatch<T, W>)
        requires
            old(hatch).wf(),
        ensures
            *final(hatch) == receiver_close_sync(self, *old(hatch)),
            final(hatch).wf(),
    {
        proof {
            lemma_flag_consts();
        }
        if any_flag(self.flags, R_CLOSE) {
            return ;
        }
        let pre = hatch.flags.fetch_or(HatchFlags(R_CLOSE));
        if pre.is_sender_closed() {
            self.holder.cleanup(hatch, any_flag(self.flags, MARK_ON_DROP));
        }
    }

    /// Once the sender is gone, resets the storage and mints a new sender
    /// for it.
    pub fn recover<T, W>(&mut self, hatch: &mut Hatch<T, W>) -> (r: Result<Sender, RecoverError>)
        ensures
            (*final(self), *final(hatch), r) == receiver_recover(*old(self), *old(hatch)),
            old(hatch).wf() ==> final(hatch).wf(),
    {
        proof {
            lemma_flag_consts();
        }
        if any_flag(self.flags, R_CLOSE) {
            return Err(RecoverError::Closed);
        }
        if any_flag(self.flags, S_CLOSE) || hatch.flags.load().is_sender_closed() {
            self.holder.recycle(hatch);
            self.flags = self.flags & !S_CLOSE;
            Ok(Sender::new(self.holder))
        } else {
            Err(RecoverError::Live)
        }
    }
}

/// What a receive that found the sender gone leaves: the lock kept, the
/// value taken, and the sender's close recorded by the receiver.
pub open spec fn take_after_close<T, W>(r: Receiver, h: Hatch<T, W>) -> (Receiver, Hatch<T, W>) {
    (r.seen(S_CLOSE), h.lock_kept().with_slot(None, h.inner.sender, h.inner.receiver))
}

/// What a receive that takes a value from a live sender leaves, with options
/// `opts`: the slot emptied, the sender's callback woken, and this side
/// closed if it asked to close on success.
pub open spec fn take_live<T, W>(r: Receiver, h: Hatch<T, W>, opts: u8) -> (Receiver, Hatch<T, W>) {
    let closes = has_flag(opts, CLOSE_ON_SUCCESS);
    (
        if closes { r.seen(R_CLOSE) } else { r },
        h.with_slot(None, None, h.inner.receiver)
            .with_word(if closes { h.word() | R_CLOSE } else { h.word() })
            .counted()
            .woke(h.inner.sender),
    )
}

/// A synchronous receive by `r` with options `opts` against `h`: the
/// receiver and the hatch afterwards, and what the caller gets. An empty
/// slot is no error; only a gone sender is.
pub open spec fn recv_now<T, W>(
    r: Receiver,
    h: Hatch<T, W>, opts: u8) -> (Receiver,
    Hatch<T, W>,
    Result<Option<T>, Closed>,
) {
    if r.lonely() || r.closed() {
        (r, h, Err(Closed))
    } else if h.s_closed() {
        let (r2, h2) = take_after_close(r, h);
        (r2, h2, match h.inner.value {
            Some(v) => Ok(Some(v)),
            None => Err(Closed),
        })
    } else if h.inner.value is Some {
        let (r2, h2) = take_live(r, h, opts);
        (r2, h2, Ok(h.inner.value))
    } else {
        (r, h.counted(), Ok(None))
    }
}

/// One poll of a receive with options `opts` and callback `w`. On an empty
/// slot it leaves `w` and wakes a sender that waits for it to listen.
pub open spec fn recv_poll<T, W>(
    r: Receiver,
    h: Hatch<T, W>, opts: u8, w: W) -> (Receiver,
    Hatch<T, W>,
    Poll<Result<T, Closed>>,
) {
    if r.lonely() || r.closed() {
        (r, h, Poll::Ready(Err(Closed)))
    } else if h.s_closed() {
        let (r2, h2) = take_after_close(r, h);
        (r2, h2, Poll::Ready(
            match h.inner.value {
                Some(v) => Ok(v),
                None => Err(Closed),
            },
        ))
    } else if h.inner.value is Some {
        let (r2, h2) = take_live(r, h, opts);
        (r2, h2, Poll::Ready(Ok(h.inner.value->Some_0)))
    } else {
        (
            r,
            h.with_slot(None, None, Some(w)).counted().woke(h.inner.sender),
            Poll::Pending,
        )
    }
}

/// Dropping a receive: one that left a callback takes it back, unless the
/// sender is known to be gone.
pub open spec fn receiver_cancel<T, W>(
    r: Receiver,
    h: Hatch<T, W>, opts: u8) -> (Receiver,
    Hatch<T, W>,
) {
    if !has_flag(opts, WAITING) || r.lonely() || r.closed() {
        (r, h)
    } else if h.s_closed() {
        (r.seen(S_CLOSE), h.lock_kept())
    } else {
        (r, h.with_slot(h.inner.value, h.inner.sender, None).counted())
    }
}

/// Closing the receiver. First to close: set the close bit, drop its own
/// callback, wake the sender's. Second: tear the storage down.
pub open spec fn receiver_close<T, W>(r: Receiver, h: Hatch<T, W>) -> Hatch<T, W> {
    if r.closed() {
        h
    } else if h.s_closed() {
        let gone = h.lock_kept().with_word(h.word() | LOCK | R_CLOSE);
        r.holder.cleaned(gone, has_flag(r.flags, MARK_ON_DROP))
    } else {
        h.with_slot(h.inner.value, None, None)
            .with_word(h.word() | R_CLOSE)
            .counted()
            .woke(h.inner.sender)
    }
}

/// Closing the receiver without the lock. First to close: set the close bit.
/// Second: tear the storage down.
pub open spec fn receiver_close_sync<T, W>(r: Receiver, h: Hatch<T, W>) -> Hatch<T, W> {
    if r.closed() {
        h
    } else if h.s_closed() {
        r.holder.cleaned(h.with_word(h.word() | R_CLOSE), has_flag(r.flags, MARK_ON_DROP))
    } else {
        h.with_word(h.word() | R_CLOSE)
    }
}

/// Recovery by the receiver: once the sender is gone, the storage is reset
/// and a new sender made for it.
pub open spec fn receiver_recover<T, W>(
    r: Receiver,
    h: Hatch<T, W>) -> (Receiver,
    Hatch<T, W>,
    Result<Sender, RecoverError>,
) {
    if r.closed() {
        (r, h, Err(RecoverError::Closed))
    } else if r.lonely() || h.s_closed() {
        (
            Receiver { flags: r.flags & !S_CLOSE, ..r },
            h.with_slot(None, None, None).with_word(DEFAULT),
            Ok(Sender { holder: r.holder, flags: DEFAULT }),
        )
    } else {
        (r, h, Err(RecoverError::Live))
    }
}

/// A receive in flight, with a snapshot of options.
pub struct Receiving<'a> {
    pub receiver: &'a mut Receiver,
    pub flags: u8,
}

impl<'a> Receiving<'a> {
    /// Whether the receiver closes itself if this receive gets a value.
    pub fn close_on_receive(self, on: bool) -> (r: Receiving<'a>)
        ensures
            *r.receiver == *old(self.receiver),
            *final(r.receiver) == *final(self.receiver),
            r.flags == with_flag(self.flags, CLOSE_ON_SUCCESS, on),
    {
        let flags = set_flag(self.flags, CLOSE_ON_SUCCESS, on);
        Receiving { receiver: self.receiver, flags }
    }

    /// Tries once, without waiting.
    pub fn now<T, W: Wake>(self, hatch: &mut Hatch<T, W>) -> (r: Result<Option<T>, Closed>)
        requires
            old(hatch).wf(),
        ensures
            (*final(self.receiver), *final(hatch), r) == recv_now(
                *old(self.receiver),
                *old(hatch),
                self.flags,
            ),
            final(hatch).wf(),
    {
        proof {
            lemma_flag_consts();
        }
        let Receiving { receiver, flags } = self;
        if receiver.is_closed() {
            return Err(Closed);
        }
        let pre = hatch.lock();
        if pre.is_sender_closed() {
            receiver.flags = receiver.flags | S_CLOSE;
            return match hatch.inner.value.take() {
                Some(v) => Ok(Some(v)),
                None => Err(Closed),
            };
        }
        if hatch.inner.value.is_none() {
            hatch.flags.store(pre);
            return Ok(None);
        }
        let got = take_value(receiver, hatch, flags, pre, Ghost(*old(hatch)));
        Ok(Some(got))
    }

    /// Polls once, leaving `w` to be woken if the slot is still empty.
    pub fn poll<T, W: Wake>(&mut self, hatch: &mut Hatch<T, W>, w: W) -> (r: Poll<Result<T, Closed>>)
        requires
            old(hatch).wf(),
        ensures
            (*final(self).receiver, *final(hatch), r) == recv_poll(
                *old(self).receiver,
                *old(hatch),
                old(self).flags,
                w,
            ),
            final(hatch).wf(),
            final(self).flags == if r.pending() { old(self).flags | WAITING } else { old(self).flags },
            *final(final(self).receiver) == *final(old(self).receiver),
    {
        proof {
            lemma_flag_consts();
        }
        if self.receiver.is_closed() {
            return Poll::Ready(Err(Closed));
        }
        let pre = hatch.lock();
        if pre.is_sender_closed() {
            self.receiver.flags = self.receiver.flags | S_CLOSE;
            return Poll::Ready(
                match hatch.inner.value.take() {
                    Some(v) => Ok(v),
                    None => Err(Closed),
                },
            );
        }
        if hatch.inner.value.is_none() {
            hatch.inner.receiver = Some(w);
            let waiting = hatch.inner.sender.take();
            hatch.flags.store(pre);
            self.flags = self.flags | WAITING;
            hatch.wake(waiting);
            return Poll::Pending;
        }
        let got = take_value(self.receiver, hatch, self.flags, pre, Ghost(*old(hatch)));
        Poll::Ready(Ok(got))
    }

    /// Drops the operation. If it left a callback, takes it back.
    pub fn cancel<T, W>(self, hatch: &mut Hatch<T, W>)
        requires
            old(hatch).wf(),
        ensures
            (*final(self.receiver), *final(hatch)) == receiver_cancel(
                *old(self.receiver),
                *old(hatch),
                self.flags,
            ),
            final(hatch).wf(),
    {
        proof {
            lemma_flag_consts();
        }
        let Receiving { receiver, flags } = self;
        if !any_flag(flags, WAITING) || receiver.is_closed() {
            return ;
        }
        let pre = hatch.lock();
        if pre.is_sender_closed() {
            receiver.flags = receiver.flags | S_CLOSE;
            return ;
        }
        hatch.inner.receiver = None;
        hatch.flags.store(pre);
    }
}

/// Takes the value out of a slot that holds one, with the lock held and the
/// sender open, then releases the lock (closing this side if `opts` asks)
/// and wakes the sender's callback.
fn take_value<T, W: Wake>(
    receiver: &mut Receiver,
    hatch: &mut Hatch<T, W>,
    opts: u8,
    pre: HatchFlags,
    Ghost(before): Ghost<Hatch<T, W>>,
) -> (got: T)
    requires
        *old(hatch) == before.lock_kept(),
        before.word() == pre.0,
        before.inner.value is Some,
    ensures
        (*final(receiver), *final(hatch)) == take_live(*old(receiver), before, opts),
        got == before.inner.value->Some_0,
{
    let got = hatch.inner.value.take().unwrap();
    let waiting = hatch.inner.sender.take();
    hatch.flags.store(HatchFlags(pre.0 | r_closes(opts)));
    proof {
        lemma_or_zero(pre.0);
    }
    if any_flag(opts, CLOSE_ON_SUCCESS) {
        receiver.flags = receiver.flags | R_CLOSE;
    }
    hatch.wake(waiting);
    got
}

} // verus!
