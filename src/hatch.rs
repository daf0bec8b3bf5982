//! The shared storage of a channel: the flag word, the slot it guards, the
//! lock protocol, and reuse of storage whose handles have both gone.
use vstd::prelude::*;

use crate::flags::{
    group_flag_bits, has_flag, lemma_flag_consts, AtomicHatchFlags, HatchFlags, DEFAULT, LOCK,
    RECLAIMABLE, R_CLOSE, S_CLOSE,
};

verus! {

broadcast use group_flag_bits;

/// The partner handle is gone.
#[derive(Debug, PartialEq, Eq, Structural)]
pub struct Closed;

/// Why a handle could not mint a new partner.
#[derive(Debug, PartialEq, Eq, Structural)]
pub enum RecoverError {
    /// The other side is still alive.
    Live,
    /// This handle has already closed its side.
    Closed,
}

/// What polling an operation gives.
#[derive(Debug, PartialEq, Eq)]
pub enum Poll<T> {
    Ready(T),
    Pending,
}

impl<T> Poll<T> {
    pub open spec fn pending(self) -> bool {
        self is Pending
    }

    pub fn is_pending(&self) -> (r: bool)
        ensures
            r == self.pending(),
    {
        match self {
            Poll::Pending => true,
            Poll::Ready(_) => false,
        }
    }
}

/// A callback, handed in by whoever polls, that resumes a suspended task.
pub trait Wake: Sized {
    fn wake(self);
}

/// The slot the lock guards: the value in flight, and one wake callback for
/// each side.
pub struct Shared<T, W> {
    pub sender: Option<W>,
    pub receiver: Option<W>,
    pub value: Option<T>,
}

impl<T, W> Shared<T, W> {
    pub open spec fn is_empty(self) -> bool {
        &&& self.sender is None
        &&& self.receiver is None
        &&& self.value is None
    }

    pub fn new() -> (r: Shared<T, W>)
        ensures
            r.is_empty(),
    {
        Shared { sender: None, receiver: None, value: None }
    }

    /// Drops the value and both callbacks.
    pub fn reset(&mut self)
        ensures
            final(self).is_empty(),
    {
        self.receiver = None;
        self.sender = None;
        self.value = None;
    }
}

impl<T, W> Default for Shared<T, W> {
    fn default() -> (r: Shared<T, W>)
        ensures
            r.is_empty(),
    {
        Shared::new()
    }
}

/// How the storage behind a pair of handles is owned, which decides what the
/// second handle to close does with it.
#[derive(Clone, Copy, Debug, PartialEq, Eq, Structural)]
pub enum Holder {
    /// Owned by the pair: the last handle frees it.
    Boxed,
    /// Borrowed from the caller: the last handle leaves it in place, or,
    /// if asked to mark it, clears it and marks it reclaimable.
    Ref,
}

/// The shared state of one channel.
pub struct Hatch<T, W> {
    pub flags: AtomicHatchFlags,
    pub inner: Shared<T, W>,
    /// Every wake callback this hatch has invoked, oldest first.
    pub woken: Ghost<Seq<W>>,
    /// How many times a handle has taken the lock.
    pub locks: Ghost<nat>,
}

/// The callbacks that waking `w` adds to a log.
pub open spec fn wake_log<W>(w: Option<W>) -> Seq<W> {
    match w {
        Some(x) => seq![x],
        None => Seq::empty(),
    }
}

impl<T, W> Hatch<T, W> {
    pub open spec fn word(self) -> u8 {
        self.flags.word
    }

    pub open spec fn r_closed(self) -> bool {
        has_flag(self.word(), R_CLOSE)
    }

    pub open spec fn s_closed(self) -> bool {
        has_flag(self.word(), S_CLOSE)
    }

    /// Between operations the lock is free, unless a handle left it taken
    /// after seeing that its partner had gone.
    pub open spec fn wf(self) -> bool {
        !has_flag(self.word(), LOCK) || self.r_closed() || self.s_closed()
    }

    /// A hatch that no pair has used: lock free, both sides open, slot empty.
    pub open spec fn is_fresh(self) -> bool {
        self.word() == DEFAULT && self.inner.is_empty()
    }

    /// `self` with the flag word replaced.
    pub open spec fn with_word(self, word: u8) -> Hatch<T, W> {
        Hatch { flags: AtomicHatchFlags { word }, ..self }
    }

    /// `self` with the slot's value and callbacks replaced.
    pub open spec fn with_slot(
        self,
        value: Option<T>,
        sender: Option<W>,
        receiver: Option<W>,
    ) -> Hatch<T, W> {
        Hatch { inner: Shared { sender, receiver, value }, ..self }
    }

    /// `self` after one more lock acquisition.
    pub open spec fn counted(self) -> Hatch<T, W> {
        Hatch { locks: Ghost(self.locks@ + 1), ..self }
    }

    /// `self` after waking `w`, if there is one.
    pub open spec fn woke(self, w: Option<W>) -> Hatch<T, W> {
        Hatch { woken: Ghost(self.woken@ + wake_log(w)), ..self }
    }

    /// `self` with the lock taken and left taken: what a handle leaves
    /// behind when the lock shows that its partner has gone.
    pub open spec fn lock_kept(self) -> Hatch<T, W> {
        self.with_word(self.word() | LOCK).counted()
    }

    pub fn new() -> (r: Hatch<T, W>)
        ensures
            r.is_fresh(),
            r.woken@ == Seq::<W>::empty(),
            r.locks@ == 0,
    {
        Hatch {
            flags: AtomicHatchFlags::new(HatchFlags::new()),
            inner: Shared::new(),
            woken: Ghost(Seq::empty()),
            locks: Ghost(0),
        }
    }

    /// Whether the lock is free, or a close bit explains why it is held.
    pub fn well_formed(&self) -> (r: bool)
        ensures
            r == self.wf(),
    {
        let f = self.flags.load();
        !f.is_lock() || f.is_receiver_closed() || f.is_sender_closed()
    }

    /// Takes the lock. Returns the word as it was before, once the lock was
    /// free or a close bit showed that the partner will not touch the slot
    /// again.
    pub fn lock(&mut self) -> (r: HatchFlags)
        requires
            old(self).wf(),
        ensures
            r.0 == old(self).word(),
            !r.locked() || r.r_closed() || r.s_closed(),
            *final(self) == old(self).lock_kept(),
    {
        let ghost start = *self;
        let lock = HatchFlags::new().lock(true);
        proof {
            assert(DEFAULT ^ LOCK == LOCK) by (bit_vector);
        }
        loop
            invariant
                start == *old(self),
                *self == start,
                start.wf(),
                lock.0 == LOCK,
            decreases 1int,
        {
            let flags = self.flags.fetch_or(lock);
            proof {
                self.locks = Ghost(self.locks@ + 1);
            }
            if flags.is_receiver_closed() {
                return flags;
            }
            if flags.is_sender_closed() {
                return flags;
            }
            if !flags.is_lock() {
                return flags;
            }
        }
    }

    /// Resets the hatch for a new pair, if both handles have gone and the
    /// last one marked it reclaimable. Returns whether it did.
    pub fn reclaim(&mut self) -> (r: bool)
        ensures
            r == (old(self).word() == RECLAIMABLE),
            r ==> final(self).is_fresh(),
            !r ==> *final(self) == *old(self),
            final(self).woken == old(self).woken,
            final(self).locks == old(self).locks,
    {
        let should = self.flags.load().is_reclaimable();
        proof {
            lemma_flag_consts();
        }
        if should {
            self.reclaim_unchecked();
        }
        should
    }

    /// Resets the hatch for a new pair without looking at the sentinel.
    pub fn reclaim_unchecked(&mut self)
        requires
            old(self).r_closed(),
            old(self).s_closed(),
        ensures
            final(self).is_fresh(),
            final(self).woken == old(self).woken,
            final(self).locks == old(self).locks,
    {
        self.inner.reset();
        self.flags.store(HatchFlags::new());
    }

    /// Invokes `w`, if there is one, and records it.
    pub(crate) fn wake(&mut self, w: Option<W>)
        where
            W: Wake,
        ensures
            *final(self) == old(self).woke(w),
    {
        proof {
            self.woken = Ghost(self.woken@ + wake_log(w));
        }
        match w {
            Some(x) => x.wake(),
            None => {},
        }
    }
}

impl<T, W> Default for Hatch<T, W> {
    fn default() -> (r: Hatch<T, W>)
        ensures
            r.is_fresh(),
            r.woken@ == Seq::<W>::empty(),
            r.locks@ == 0,
    {
        Hatch::new()
    }
}

impl Holder {
    /// What the last handle to close leaves of `h`, with `mark` its
    /// mark-on-drop option.
    pub open spec fn cleaned<T, W>(self, h: Hatch<T, W>, mark: bool) -> Hatch<T, W> {
        match self {
            Holder::Boxed => h.with_slot(None, None, None),
            Holder::Ref => if mark {
                h.with_slot(None, None, None).with_word(RECLAIMABLE)
            } else {
                h
            },
        }
    }

    /// The final step, run by whichever handle closes second.
    pub fn cleanup<T, W>(self, h: &mut Hatch<T, W>, mark: bool)
        ensures
            *final(h) == self.cleaned(*old(h), mark),
    {
        match self {
            Holder::Boxed => {
                h.inner.reset();
            },
            Holder::Ref => {
                if mark {
                    h.inner.reset();
                    h.flags.store(HatchFlags::reclaimable());
                }
            },
        }
    }

    /// Resets `h` for a new pair: what a handle does when it recovers from
    /// a partner that has gone.
    pub fn recycle<T, W>(self, h: &mut Hatch<T, W>)
        ensures
            *final(h) == old(h).with_slot(None, None, None).with_word(DEFAULT),
    {
        h.inner.reset();
        h.flags.store(HatchFlags::new());
    }
}

} // verus!
