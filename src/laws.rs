//! What holds of the channel across operations, stated over the step
//! functions that the operations' own contracts use.
use vstd::prelude::*;

use crate::flags::{
    group_flag_bits, has_flag, lemma_flag_consts, CLOSE_ON_SUCCESS, DEFAULT, OVERWRITE, R_CLOSE,
    S_CLOSE,
};
use crate::hatch::{Closed, Hatch, Holder, Poll};
use crate::receiver::{
    recv_now, recv_poll, receiver_cancel, receiver_close, receiver_close_sync, receiver_recover,
    Receiver,
};
use crate::sender::{
    send_now, send_poll, sender_cancel, sender_close, sender_close_sync, sender_recover, wait_poll,
    SendError, SendErrorKind, Sender,
};

verus! {

broadcast use group_flag_bits;

/// Waking a callback adds exactly it to the log.
pub proof fn lemma_woke_one<T, W>(h: Hatch<T, W>, w: W)
    ensures
        h.woke(Some(w)).woken@ == h.woken@.push(w),
{
    assert(h.woke(Some(w)).woken@ =~= h.woken@.push(w));
}

/// A live pair agrees with the hatch it shares: each side has closed itself
/// exactly when the word shows its close bit, a side that has seen its
/// partner go is right about it, and the lock is free between operations
/// unless a side left it after seeing its partner gone.
pub open spec fn paired<T, W>(h: Hatch<T, W>, s: Sender, r: Receiver) -> bool {
    &&& h.wf()
    &&& s.closed() == h.s_closed()
    &&& r.closed() == h.r_closed()
    &&& s.lonely() ==> h.r_closed()
    &&& r.lonely() ==> h.s_closed()
}

/// Once a send has put a value in the slot (without closing the sender), a
/// second send that may not overwrite fails with `Full`, hands its value
/// back and leaves the slot as it was. The slot itself is an `Option`: it
/// never holds more than one value.
pub proof fn lemma_second_send_is_full<T, W>(
    s: Sender,
    h: Hatch<T, W>,
    v1: T,
    o1: u8,
    v2: T,
    o2: u8,
)
    requires
        send_now(s, h, v1, o1).2 is Ok,
        !has_flag(o1, CLOSE_ON_SUCCESS),
        !has_flag(o2, OVERWRITE),
    ensures
        ({
            let (s1, h1, _) = send_now(s, h, v1, o1);
            let (s2, h2, out) = send_now(s1, h1, v2, o2);
            &&& h1.inner.value == Some(v1)
            &&& out == Err::<Option<T>, SendError<T>>(
                SendError { kind: SendErrorKind::Full, value: v2 },
            )
            &&& h2.inner == h1.inner
            &&& h2.word() == h1.word()
            &&& s2 == s1
        }),
{
}

/// Closing the sender, with or without the lock, while the slot is empty
/// makes the receiver's next synchronous receive report `Closed`.
pub proof fn lemma_sender_close_is_seen<T, W>(h: Hatch<T, W>, s: Sender, r: Receiver, o: u8)
    requires
        paired(h, s, r),
        h.inner.value is None,
    ensures
        recv_now(r, sender_close(s, h), o).2 == Err::<Option<T>, Closed>(Closed),
        recv_now(r, sender_close_sync(s, h), o).2 == Err::<Option<T>, Closed>(Closed),
{
    lemma_flag_consts();
}

/// Closing the receiver, with or without the lock, makes the sender's next
/// synchronous send report `Closed` and hand its value back.
pub proof fn lemma_receiver_close_is_seen<T, W>(
    h: Hatch<T, W>,
    s: Sender,
    r: Receiver,
    v: T,
    o: u8,
)
    requires
        paired(h, s, r),
    ensures
        send_now(s, receiver_close(r, h), v, o).2 == Err::<Option<T>, SendError<T>>(
            SendError { kind: SendErrorKind::Closed, value: v },
        ),
        send_now(s, receiver_close_sync(r, h), v, o).2 == Err::<Option<T>, SendError<T>>(
            SendError { kind: SendErrorKind::Closed, value: v },
        ),
{
    lemma_flag_consts();
}

/// A receiver that has seen the sender close stays that way, and from then
/// on every receive, synchronous or polled, reports `Closed` and leaves the
/// hatch untouched: no lock is taken.
pub proof fn lemma_lonely_receiver<T, W>(
    r: Receiver,
    h: Hatch<T, W>,
    o: u8,
    h2: Hatch<T, W>,
    o2: u8,
    w: W,
)
    requires
        h.s_closed(),
    ensures
        ({
            let r1 = recv_now(r, h, o).0;
            &&& r1.lonely() || r1.closed()
            &&& recv_now(r1, h2, o2) == (r1, h2, Err::<Option<T>, Closed>(Closed))
            &&& recv_poll(r1, h2, o2, w) == (
                r1,
                h2,
                Poll::<Result<T, Closed>>::Ready(Err(Closed)),
            )
        }),
{
    lemma_flag_consts();
}

/// A receive poll that goes pending leaves its callback, and a send that
/// then completes, synchronously or polled, wakes it.
pub proof fn lemma_pending_receive_is_woken<T, W>(
    r: Receiver,
    s: Sender,
    h: Hatch<T, W>,
    ro: u8,
    w: W,
    v: T,
    so: u8,
    sw: W,
)
    ensures
        ({
            let (r1, h1, p) = recv_poll(r, h, ro, w);
            p is Pending ==> {
                &&& send_now(s, h1, v, so).2 is Ok ==> send_now(s, h1, v, so).1.woken@
                    == h1.woken@.push(w)
                &&& send_poll(s, h1, v, so, sw).2 == Poll::<Result<(), SendError<T>>>::Ready(
                    Ok(()),
                ) ==> send_poll(s, h1, v, so, sw).1.woken@ == h1.woken@.push(w)
            }
        }),
{
    let (r1, h1, p) = recv_poll(r, h, ro, w);
    if p is Pending {
        lemma_woke_one(h1.with_slot(Some(v), h1.inner.sender, None).counted(), w);
        lemma_woke_one(h1.with_slot(Some(v), h1.inner.sender, None).with_word(h1.word() | S_CLOSE).counted(), w);
    }
}

/// In the other order, a send that completes before the receiver polls
/// leaves nothing to wait for: the poll is ready at once with the value.
pub proof fn lemma_send_then_receive_is_ready<T, W>(
    h: Hatch<T, W>,
    s: Sender,
    r: Receiver,
    v: T,
    so: u8,
    ro: u8,
    w: W,
)
    requires
        paired(h, s, r),
        send_now(s, h, v, so).2 is Ok,
    ensures
        recv_poll(r, send_now(s, h, v, so).1, ro, w).2 == Poll::<Result<T, Closed>>::Ready(Ok(v)),
{
    lemma_flag_consts();
}

/// A send poll that goes pending on a full slot leaves its callback, and a
/// receive that then takes the value wakes it.
pub proof fn lemma_pending_send_is_woken<T, W>(
    s: Sender,
    r: Receiver,
    h: Hatch<T, W>,
    v: T,
    so: u8,
    w: W,
    ro: u8,
    rw: W,
)
    requires
        paired(h, s, r),
    ensures
        ({
            let (s1, h1, p) = send_poll(s, h, v, so, w);
            p is Pending ==> {
                &&& recv_now(r, h1, ro).2 is Ok && recv_now(r, h1, ro).2->Ok_0 is Some
                &&& recv_now(r, h1, ro).1.woken@ == h1.woken@.push(w)
                &&& recv_poll(r, h1, ro, rw).1.woken@ == h1.woken@.push(w)
            }
        }),
{
    lemma_flag_consts();
    let (s1, h1, p) = send_poll(s, h, v, so, w);
    if p is Pending {
        lemma_woke_one(h1.with_slot(None, None, h1.inner.receiver).counted(), w);
        lemma_woke_one(h1.with_slot(None, None, h1.inner.receiver).with_word(h1.word() | R_CLOSE).counted(), w);
    }
}

/// A sender that waits for demand stays pending until the receiver polls on
/// the empty slot; that poll wakes it, its next poll is ready, and the send
/// that follows succeeds at once and wakes the receiver.
pub proof fn lemma_lazy_send<T, W>(
    h: Hatch<T, W>,
    s: Sender,
    r: Receiver,
    w1: W,
    w2: W,
    ro: u8,
    rw: W,
    w3: W,
    v: T,
    so: u8,
)
    requires
        paired(h, s, r),
        !h.s_closed(),
        !h.r_closed(),
        h.inner.value is None,
        h.inner.receiver is None,
    ensures
        ({
            let (s1, h1, p1) = wait_poll(s, h, w1);
            let (s2, h2, p2) = wait_poll(s1, h1, w2);
            let (r3, h3, p3) = recv_poll(r, h2, ro, rw);
            let (s4, h4, p4) = wait_poll(s2, h3, w3);
            let (s5, h5, out) = send_now(s4, h4, v, so);
            &&& p1 is Pending
            &&& p2 is Pending
            &&& p3 is Pending
            &&& h3.woken@ == h2.woken@.push(w2)
            &&& p4 == Poll::<Result<(), Closed>>::Ready(Ok(()))
            &&& out == Ok::<Option<T>, SendError<T>>(None)
            &&& h5.woken@ == h4.woken@.push(rw)
            &&& h5.inner.value == Some(v)
        }),
{
    lemma_flag_consts();
    let (s1, h1, p1) = wait_poll(s, h, w1);
    let (s2, h2, p2) = wait_poll(s1, h1, w2);
    let (r3, h3, p3) = recv_poll(r, h2, ro, rw);
    let (s4, h4, p4) = wait_poll(s2, h3, w3);
    lemma_woke_one(h2.with_slot(None, None, Some(rw)).counted(), w2);
    lemma_woke_one(h4.with_slot(Some(v), h4.inner.sender, None).counted(), rw);
    lemma_woke_one(h4.with_slot(Some(v), h4.inner.sender, None).with_word(h4.word() | S_CLOSE).counted(), rw);
}

/// With default options on an open, empty hatch: send `v1`, then send `v2`
/// overwriting, which hands `v1` back; the receiver then gets `v2`.
pub proof fn lemma_overwrite<T, W>(h: Hatch<T, W>, s: Sender, r: Receiver, v1: T, v2: T)
    requires
        paired(h, s, r),
        !h.s_closed(),
        !h.r_closed(),
        h.inner.value is None,
    ensures
        ({
            let (s1, h1, out1) = send_now(s, h, v1, DEFAULT);
            let (s2, h2, out2) = send_now(s1, h1, v2, OVERWRITE);
            let (r3, h3, out3) = recv_now(r, h2, DEFAULT);
            &&& out1 == Ok::<Option<T>, SendError<T>>(None)
            &&& out2 == Ok::<Option<T>, SendError<T>>(Some(v1))
            &&& out3 == Ok::<Option<T>, Closed>(Some(v2))
        }),
{
    lemma_flag_consts();
}

/// A fresh hatch with fresh handles, as the constructors make them, is a
/// consistent pair, whatever options the handles carry.
pub proof fn lemma_fresh_pair<T, W>(h: Hatch<T, W>, holder: Holder, so: u8, ro: u8)
    requires
        h.is_fresh(),
        !has_flag(so, R_CLOSE),
        !has_flag(so, S_CLOSE),
        !has_flag(ro, R_CLOSE),
        !has_flag(ro, S_CLOSE),
    ensures
        paired(h, Sender { holder, flags: so }, Receiver { holder, flags: ro }),
{
    lemma_flag_consts();
}

/// Every sender-side step keeps a pair consistent; a recovery gives a
/// consistent new pair.
pub proof fn lemma_sender_steps_keep_pair<T, W>(
    h: Hatch<T, W>,
    s: Sender,
    r: Receiver,
    v: T,
    o: u8,
    w: W,
)
    requires
        paired(h, s, r),
    ensures
        paired(send_now(s, h, v, o).1, send_now(s, h, v, o).0, r),
        paired(send_poll(s, h, v, o, w).1, send_poll(s, h, v, o, w).0, r),
        paired(wait_poll(s, h, w).1, wait_poll(s, h, w).0, r),
        paired(sender_cancel(s, h, o).1, sender_cancel(s, h, o).0, r),
        sender_recover(s, h).2 is Ok ==> paired(
            sender_recover(s, h).1,
            sender_recover(s, h).0,
            sender_recover(s, h).2->Ok_0,
        ),
{
    lemma_flag_consts();
}

/// Every receiver-side step keeps a pair consistent; a recovery gives a
/// consistent new pair.
pub proof fn lemma_receiver_steps_keep_pair<T, W>(
    h: Hatch<T, W>,
    s: Sender,
    r: Receiver,
    o: u8,
    w: W,
)
    requires
        paired(h, s, r),
    ensures
        paired(recv_now(r, h, o).1, s, recv_now(r, h, o).0),
        paired(recv_poll(r, h, o, w).1, s, recv_poll(r, h, o, w).0),
        paired(receiver_cancel(r, h, o).1, s, receiver_cancel(r, h, o).0),
        receiver_recover(r, h).2 is Ok ==> paired(
            receiver_recover(r, h).1,
            receiver_recover(r, h).2->Ok_0,
            receiver_recover(r, h).0,
        ),
{
    lemma_flag_consts();
}

/// With default options: a send on an empty open hatch succeeds, the
/// receive gets the value, the sender closes, the receiver recovers a new
/// sender, whose send succeeds, and the receiver gets that value too.
pub proof fn lemma_recover_round_trip<T, W>(h: Hatch<T, W>, s: Sender, r: Receiver, v1: T, v2: T)
    requires
        paired(h, s, r),
        !h.s_closed(),
        !h.r_closed(),
        h.inner.value is None,
    ensures
        ({
            let (s1, h1, out1) = send_now(s, h, v1, DEFAULT);
            let (r2, h2, out2) = recv_now(r, h1, DEFAULT);
            let h3 = sender_close(s1, h2);
            let (r4, h4, rec) = receiver_recover(r2, h3);
            let (s5, h5, out5) = send_now(rec->Ok_0, h4, v2, DEFAULT);
            let (r6, h6, out6) = recv_now(r4, h5, DEFAULT);
            &&& out1 == Ok::<Option<T>, SendError<T>>(None)
            &&& out2 == Ok::<Option<T>, Closed>(Some(v1))
            &&& rec is Ok
            &&& out5 == Ok::<Option<T>, SendError<T>>(None)
            &&& out6 == Ok::<Option<T>, Closed>(Some(v2))
        }),
{
    lemma_flag_consts();
}

} // verus!
