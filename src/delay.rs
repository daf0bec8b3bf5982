//! A future that gives way once: its first poll wakes the caller and is
//! pending, every later poll is ready.
use vstd::prelude::*;

use crate::hatch::{Poll, Wake};

verus! {

pub struct Delay {
    pub done: bool,
}

pub fn delay() -> (r: Delay)
    ensures
        !r.done,
{
    Delay { done: false }
}

impl Delay {
    /// Polls once with callback `w`, which the first poll wakes at once.
    pub fn poll<W: Wake>(&mut self, w: W) -> (r: Poll<()>)
        ensures
            r == if old(self).done { Poll::Ready(()) } else { Poll::<()>::Pending },
            final(self).done,
    {
        if self.done {
            Poll::Ready(())
        } else {
            self.done = true;
            w.wake();
            Poll::Pending
        }
    }
}

} // verus!
