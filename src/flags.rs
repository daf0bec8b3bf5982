//! The packed flag word shared by the two handles, and the private option
//! bytes each handle keeps for itself.
//!
//! Shared bits: `LOCK` (exclusive access to the shared slot), `R_CLOSE` (the
//! receiver has gone) and `S_CLOSE` (the sender has gone). The all-ones value
//! `RECLAIMABLE` says that both handles have gone and the storage may be reset
//! for a new pair.
//!
//! Local bits live in a handle's own byte and never in the shared word: the
//! options `CLOSE_ON_SUCCESS`, `MARK_ON_DROP`, `OVERWRITE`, and `WAITING`, set
//! by an operation that has left a wake callback behind. A handle also keeps
//! the partner's close bit in its own byte once it has seen it (it is then
//! "lonely"), and its own close bit once it has closed itself.
use vstd::prelude::*;

verus! {

/// Exclusive access to the shared slot.
pub const LOCK: u8 = 1;

/// The receiver has closed.
pub const R_CLOSE: u8 = 2;

/// The sender has closed.
pub const S_CLOSE: u8 = 4;

/// Close this handle as part of the next operation that transfers a value.
pub const CLOSE_ON_SUCCESS: u8 = 8;

/// On final teardown of borrowed storage, clear it and mark it reclaimable.
pub const MARK_ON_DROP: u8 = 16;

/// (Sender) a synchronous send may replace a value that is still waiting.
pub const OVERWRITE: u8 = 32;

/// An operation has left a wake callback in the shared slot.
pub const WAITING: u8 = 64;

/// Both handles have gone: the storage may be reset and reused.
pub const RECLAIMABLE: u8 = 255;

/// No option set.
pub const DEFAULT: u8 = 0;

/// Whether any bit of `needle` is set in `haystack`.
pub open spec fn has_flag(haystack: u8, needle: u8) -> bool {
    haystack & needle != 0
}

/// `needle` is a single bit; sets it in `haystack` when `on`, clears it otherwise.
pub open spec fn with_flag(haystack: u8, needle: u8, on: bool) -> u8 {
    if on {
        haystack | needle
    } else {
        haystack & !needle
    }
}

pub broadcast proof fn lemma_or_flag(f: u8, m: u8, q: u8)
    by (bit_vector)
    ensures
        #[trigger] has_flag(f | m, q) == (has_flag(f, q) || has_flag(m, q)),
{
}

/// `q` is one bit.
pub open spec fn single_bit(q: u8) -> bool {
    q == 1 || q == 2 || q == 4 || q == 8 || q == 16 || q == 32 || q == 64 || q == 128
}

pub broadcast proof fn lemma_and_not_flag(f: u8, m: u8, q: u8)
    by (bit_vector)
    requires
        single_bit(q),
    ensures
        #[trigger] has_flag(f & !m, q) == (has_flag(f, q) && !has_flag(m, q)),
{
}

pub broadcast proof fn lemma_xor_flag(f: u8, m: u8, q: u8)
    by (bit_vector)
    requires
        single_bit(q),
    ensures
        #[trigger] has_flag(f ^ m, q) == (has_flag(f, q) != has_flag(m, q)),
{
}

pub broadcast group group_flag_bits {
    lemma_or_flag,
    lemma_and_not_flag,
    lemma_xor_flag,
}

pub proof fn lemma_or_zero(f: u8)
    by (bit_vector)
    ensures
        f | 0 == f,
{
}

/// Which of the named bits each named bit touches: each is a distinct single
/// bit, and `RECLAIMABLE` holds all of them.
pub proof fn lemma_flag_consts()
    by (bit_vector)
    ensures
        has_flag(LOCK, LOCK),
        !has_flag(LOCK, R_CLOSE),
        !has_flag(LOCK, S_CLOSE),
        !has_flag(LOCK, CLOSE_ON_SUCCESS),
        !has_flag(LOCK, MARK_ON_DROP),
        !has_flag(LOCK, OVERWRITE),
        !has_flag(LOCK, WAITING),
        !has_flag(R_CLOSE, LOCK),
        has_flag(R_CLOSE, R_CLOSE),
        !has_flag(R_CLOSE, S_CLOSE),
        !has_flag(R_CLOSE, CLOSE_ON_SUCCESS),
        !has_flag(R_CLOSE, MARK_ON_DROP),
        !has_flag(R_CLOSE, OVERWRITE),
        !has_flag(R_CLOSE, WAITING),
        !has_flag(S_CLOSE, LOCK),
        !has_flag(S_CLOSE, R_CLOSE),
        has_flag(S_CLOSE, S_CLOSE),
        !has_flag(S_CLOSE, CLOSE_ON_SUCCESS),
        !has_flag(S_CLOSE, MARK_ON_DROP),
        !has_flag(S_CLOSE, OVERWRITE),
        !has_flag(S_CLOSE, WAITING),
        !has_flag(CLOSE_ON_SUCCESS, LOCK),
        !has_flag(CLOSE_ON_SUCCESS, R_CLOSE),
        !has_flag(CLOSE_ON_SUCCESS, S_CLOSE),
        has_flag(CLOSE_ON_SUCCESS, CLOSE_ON_SUCCESS),
        !has_flag(CLOSE_ON_SUCCESS, MARK_ON_DROP),
        !has_flag(CLOSE_ON_SUCCESS, OVERWRITE),
        !has_flag(CLOSE_ON_SUCCESS, WAITING),
        !has_flag(MARK_ON_DROP, LOCK),
        !has_flag(MARK_ON_DROP, R_CLOSE),
        !has_flag(MARK_ON_DROP, S_CLOSE),
        !has_flag(MARK_ON_DROP, CLOSE_ON_SUCCESS),
        has_flag(MARK_ON_DROP, MARK_ON_DROP),
        !has_flag(MARK_ON_DROP, OVERWRITE),
        !has_flag(MARK_ON_DROP, WAITING),
        !has_flag(OVERWRITE, LOCK),
        !has_flag(OVERWRITE, R_CLOSE),
        !has_flag(OVERWRITE, S_CLOSE),
        !has_flag(OVERWRITE, CLOSE_ON_SUCCESS),
        !has_flag(OVERWRITE, MARK_ON_DROP),
        has_flag(OVERWRITE, OVERWRITE),
        !has_flag(OVERWRITE, WAITING),
        !has_flag(WAITING, LOCK),
        !has_flag(WAITING, R_CLOSE),
        !has_flag(WAITING, S_CLOSE),
        !has_flag(WAITING, CLOSE_ON_SUCCESS),
        !has_flag(WAITING, MARK_ON_DROP),
        !has_flag(WAITING, OVERWRITE),
        has_flag(WAITING, WAITING),
        has_flag(RECLAIMABLE, LOCK),
        has_flag(RECLAIMABLE, R_CLOSE),
        has_flag(RECLAIMABLE, S_CLOSE),
        !has_flag(DEFAULT, LOCK),
        !has_flag(DEFAULT, R_CLOSE),
        !has_flag(DEFAULT, S_CLOSE),
        !has_flag(DEFAULT, CLOSE_ON_SUCCESS),
        !has_flag(DEFAULT, MARK_ON_DROP),
        !has_flag(DEFAULT, OVERWRITE),
        !has_flag(DEFAULT, WAITING),
{
}

/// Returns `R_CLOSE` if `CLOSE_ON_SUCCESS` is set, without branching.
pub fn r_closes(flags: u8) -> (r: u8)
    ensures
        r == if has_flag(flags, CLOSE_ON_SUCCESS) { R_CLOSE } else { 0 },
{
    let r = (flags & CLOSE_ON_SUCCESS) >> 2u8;
    assert(r == if has_flag(flags, CLOSE_ON_SUCCESS) { R_CLOSE } else { 0 }) by (bit_vector)
        requires
            r == (flags & CLOSE_ON_SUCCESS) >> 2u8,
    ;
    r
}

/// Returns `S_CLOSE` if `CLOSE_ON_SUCCESS` is set, without branching.
pub fn s_closes(flags: u8) -> (r: u8)
    ensures
        r == if has_flag(flags, CLOSE_ON_SUCCESS) { S_CLOSE } else { 0 },
{
    let r = (flags & CLOSE_ON_SUCCESS) >> 1u8;
    assert(r == if has_flag(flags, CLOSE_ON_SUCCESS) { S_CLOSE } else { 0 }) by (bit_vector)
        requires
            r == (flags & CLOSE_ON_SUCCESS) >> 1u8,
    ;
    r
}

/// Flips the bits of `needle` in `haystack` when `on`, without branching.
pub fn toggle_flag(haystack: u8, needle: u8, on: bool) -> (r: u8)
    ensures
        r == if on { haystack ^ needle } else { haystack },
{
    let mask: u8 = needle * (on as u8);
    assert(haystack ^ 0u8 == haystack) by (bit_vector);
    haystack ^ mask
}

/// Sets the single bit `needle` in `haystack` when `on`, clears it otherwise.
pub fn set_flag(haystack: u8, needle: u8, on: bool) -> (r: u8)
    ensures
        r == with_flag(haystack, needle, on),
{
    if on {
        haystack | needle
    } else {
        haystack & !needle
    }
}

/// Whether any bit of `needle` is set in `haystack`.
pub fn any_flag(haystack: u8, needle: u8) -> (r: bool)
    ensures
        r == has_flag(haystack, needle),
{
    (haystack & needle) != 0
}

/// Whether no bit of `needle` is set in `haystack`.
pub fn no_flag(haystack: u8, needle: u8) -> (r: bool)
    ensures
        r == !has_flag(haystack, needle),
{
    (haystack & needle) == 0
}

/// A value of the shared flag word.
#[derive(Clone, Copy, Debug, PartialEq, Eq, Structural)]
pub struct HatchFlags(pub u8);

impl HatchFlags {
    pub open spec fn locked(self) -> bool {
        has_flag(self.0, LOCK)
    }

    pub open spec fn r_closed(self) -> bool {
        has_flag(self.0, R_CLOSE)
    }

    pub open spec fn s_closed(self) -> bool {
        has_flag(self.0, S_CLOSE)
    }

    /// The word with no bit set: both handles open, lock free.
    pub fn new() -> (r: HatchFlags)
        ensures
            r.0 == DEFAULT,
    {
        HatchFlags(DEFAULT)
    }

    /// The sentinel that marks storage as free for reuse.
    pub fn reclaimable() -> (r: HatchFlags)
        ensures
            r.0 == RECLAIMABLE,
    {
        HatchFlags(RECLAIMABLE)
    }

    pub fn is_lock(self) -> (r: bool)
        ensures
            r == self.locked(),
    {
        any_flag(self.0, LOCK)
    }

    pub fn is_receiver_closed(self) -> (r: bool)
        ensures
            r == self.r_closed(),
    {
        any_flag(self.0, R_CLOSE)
    }

    pub fn is_sender_closed(self) -> (r: bool)
        ensures
            r == self.s_closed(),
    {
        any_flag(self.0, S_CLOSE)
    }

    pub fn is_reclaimable(self) -> (r: bool)
        ensures
            r == (self.0 == RECLAIMABLE),
    {
        self.0 == RECLAIMABLE
    }

    /// Flips the lock bit when `on`.
    pub fn lock(self, on: bool) -> (r: HatchFlags)
        ensures
            r.0 == if on { self.0 ^ LOCK } else { self.0 },
    {
        HatchFlags(toggle_flag(self.0, LOCK, on))
    }

    /// Flips the receiver's close bit when `on`.
    pub fn receiver_closed(self, on: bool) -> (r: HatchFlags)
        ensures
            r.0 == if on { self.0 ^ R_CLOSE } else { self.0 },
    {
        HatchFlags(toggle_flag(self.0, R_CLOSE, on))
    }

    /// Flips the sender's close bit when `on`.
    pub fn sender_closed(self, on: bool) -> (r: HatchFlags)
        ensures
            r.0 == if on { self.0 ^ S_CLOSE } else { self.0 },
    {
        HatchFlags(toggle_flag(self.0, S_CLOSE, on))
    }

    /// The sender's close bit alone.
    pub fn sender_closed_bit(self) -> (r: u8)
        ensures
            r == self.0 & S_CLOSE,
            (r != 0) == self.s_closed(),
    {
        self.0 & S_CLOSE
    }

    /// The receiver's close bit alone.
    pub fn receiver_closed_bit(self) -> (r: u8)
        ensures
            r == self.0 & R_CLOSE,
            (r != 0) == self.r_closed(),
    {
        self.0 & R_CLOSE
    }
}

impl Default for HatchFlags {
    fn default() -> (r: HatchFlags)
        ensures
            r.0 == DEFAULT,
    {
        HatchFlags::new()
    }
}

/// The shared flag word. Each operation is one indivisible read, write or
/// read-modify-write of the whole word.
pub struct AtomicHatchFlags {
    pub word: u8,
}

impl AtomicHatchFlags {
    pub fn new(flags: HatchFlags) -> (r: AtomicHatchFlags)
        ensures
            r.word == flags.0,
    {
        AtomicHatchFlags { word: flags.0 }
    }

    /// The current value.
    pub fn load(&self) -> (r: HatchFlags)
        ensures
            r.0 == self.word,
    {
        HatchFlags(self.word)
    }

    /// Replaces the value.
    pub fn store(&mut self, flags: HatchFlags)
        ensures
            final(self).word == flags.0,
    {
        self.word = flags.0;
    }

    /// ORs `flags` in, returning the value before.
    pub fn fetch_or(&mut self, flags: HatchFlags) -> (r: HatchFlags)
        ensures
            r.0 == old(self).word,
            final(self).word == old(self).word | flags.0,
    {
        let before = self.word;
        self.word = before | flags.0;
        HatchFlags(before)
    }

    /// XORs `flags` in, returning the value before.
    pub fn fetch_xor(&mut self, flags: HatchFlags) -> (r: HatchFlags)
        ensures
            r.0 == old(self).word,
            final(self).word == old(self).word ^ flags.0,
    {
        let before = self.word;
        self.word = before ^ flags.0;
        HatchFlags(before)
    }
}

} // verus!
