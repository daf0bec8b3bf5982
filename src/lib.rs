//! A single-slot handshake channel that hands one value at a time from a
//! unique sender to a unique receiver, and can be reused for many values.
//!
//! The shared state is a [`Hatch`]: a packed flag word and the slot it
//! guards (the value in flight and a wake callback per side). A [`Sender`]
//! and a [`Receiver`] each keep a private byte of options and of what they
//! have seen; every operation takes the hatch they share by `&mut`, so each
//! runs as one indivisible step of the handshake protocol, and its effect is
//! stated exactly by a step function (`send_now`, `recv_poll`, ...).
//! Closing a handle is an explicit call, the counterpart of dropping it.
pub mod delay;
pub mod flags;
pub mod hatch;
pub mod laws;
pub mod receiver;
pub mod sender;

pub use delay::{delay, Delay};
pub use hatch::{Closed, Hatch, Holder, Poll, RecoverError, Shared, Wake};
pub use receiver::{Receiver, Receiving};
pub use sender::{SendError, SendErrorKind, Sender, Sending, Wait};

use vstd::prelude::*;

use flags::{with_flag, CLOSE_ON_SUCCESS, DEFAULT};

verus! {

/// Creates a channel whose storage belongs to the pair: the second handle to
/// close frees it.
pub fn hatch<T, W>() -> (r: (Hatch<T, W>, Sender, Receiver))
    ensures
        r.0.is_fresh(),
        r.0.woken@ == Seq::<W>::empty(),
        r.0.locks@ == 0,
        r.1 == (Sender { holder: Holder::Boxed, flags: DEFAULT }),
        r.2 == (Receiver { holder: Holder::Boxed, flags: DEFAULT }),
{
    (Hatch::new(), Sender::new(Holder::Boxed), Receiver::new(Holder::Boxed))
}

/// A single-use [`hatch`]: each handle closes itself on its first success.
pub fn oneshot<T, W>() -> (r: (Hatch<T, W>, Sender, Receiver))
    ensures
        r.0.is_fresh(),
        r.0.woken@ == Seq::<W>::empty(),
        r.0.locks@ == 0,
        r.1 == (Sender {
            holder: Holder::Boxed,
            flags: with_flag(DEFAULT, CLOSE_ON_SUCCESS, true),
        }),
        r.2 == (Receiver {
            holder: Holder::Boxed,
            flags: with_flag(DEFAULT, CLOSE_ON_SUCCESS, true),
        }),
{
    let (h, s, r) = hatch();
    (h, s.close_on_send(true), r.close_on_receive(true))
}

/// Creates a pair on storage the caller keeps. Borrowing it mutably shows
/// that no other pair uses it; the storage itself is left as it is.
pub fn ref_hatch<T, W>(hatch: &mut Hatch<T, W>) -> (r: (Sender, Receiver))
    ensures
        *final(hatch) == *old(hatch),
        r.0 == (Sender { holder: Holder::Ref, flags: DEFAULT }),
        r.1 == (Receiver { holder: Holder::Ref, flags: DEFAULT }),
{
    (Sender::new(Holder::Ref), Receiver::new(Holder::Ref))
}

} // verus!
