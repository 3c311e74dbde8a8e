//! The hybrid scheme: one block with a plain counter for the thread-confined
//! handles and an atomic word for the thread-shared ones. The top bit of the
//! word says that thread-confined handles exist, the bit below it is headroom
//! for racing increments, and the rest counts the thread-shared handles. Both
//! flavours live on one record at the same time.

use crate::algorithm::acquire_fence;
use crate::algorithm::fetch_add_u32;
use crate::algorithm::fetch_and_u32;
use crate::algorithm::fetch_sub_u32;
use crate::algorithm::load_u32;
use crate::algorithm::store_u32;
use crate::algorithm::Algorithm;
use crate::algorithm::Grant;
use std::marker::PhantomData;
use std::rc::Rc;
use std::sync::atomic::AtomicU32;
use std::sync::atomic::Ordering;
use vstd::prelude::*;

verus! {

/// The largest count of thread-confined handles: the whole counter.
pub const MAX_LOCAL_COUNT: u32 = 0xFFFF_FFFFu32;

/// The largest count of thread-shared handles: the word without its two top bits.
pub const MAX_SHARED_COUNT: u32 = 0x3FFF_FFFFu32;

/// The top bit of the shared word: thread-confined handles are present.
pub const LOCAL_PRESENT: u32 = 0x8000_0000u32;

/// Every bit of the shared word but the top one.
pub const CLEAR_LOCAL: u32 = 0x7FFF_FFFFu32;

/// The headroom bit and the bit below it, which an atomic `or` sets to pin
/// the count of thread-shared handles deep in the headroom. The presence bit
/// is left alone.
pub const SHARED_PINNED: u32 = 0x6000_0000u32;

/// Whether the shared word says that thread-confined handles are present.
pub open spec fn local_present(word: u32) -> bool {
    word >= LOCAL_PRESENT
}

/// The number of thread-shared handles that the shared word counts.
pub open spec fn shared_count(word: u32) -> nat {
    if word >= LOCAL_PRESENT {
        (word - LOCAL_PRESENT) as nat
    } else {
        word as nat
    }
}

/// The shared word with the presence bit set.
pub open spec fn with_presence(word: u32) -> u32 {
    if word >= LOCAL_PRESENT {
        word
    } else {
        (word + LOCAL_PRESENT) as u32
    }
}

/// The shared word with the presence bit cleared.
pub open spec fn without_presence(word: u32) -> u32 {
    if word >= LOCAL_PRESENT {
        (word - LOCAL_PRESENT) as u32
    } else {
        word
    }
}

/// An atomic `or` with the presence bit leaves `with_presence` of the word.
pub proof fn lemma_or_sets_presence(word: u32)
    ensures
        word | LOCAL_PRESENT == with_presence(word),
{
    assert(word >= 0x8000_0000u32 ==> word | 0x8000_0000u32 == word) by (bit_vector);
    assert(word < 0x8000_0000u32 ==> word | 0x8000_0000u32 == word + 0x8000_0000u32)
        by (bit_vector);
}

/// An atomic `and` with the clearing mask leaves `without_presence` of the word.
pub proof fn lemma_and_clears_presence(word: u32)
    ensures
        word & CLEAR_LOCAL == without_presence(word),
{
    assert(word >= 0x8000_0000u32 ==> word & 0x7FFF_FFFFu32 == word - 0x8000_0000u32)
        by (bit_vector);
    assert(word < 0x8000_0000u32 ==> word & 0x7FFF_FFFFu32 == word) by (bit_vector);
}

/// The plain counter after one more thread-confined handle, or `None` where
/// the counter is full: a full counter is pinned and stays as it is.
pub open spec fn local_cloned(count: u32) -> Option<u32> {
    if count == MAX_LOCAL_COUNT {
        None
    } else {
        Some((count + 1) as u32)
    }
}

/// The plain counter after one thread-confined handle has gone, and whether
/// none is left. A counter of zero counts no handle and stays; a full counter
/// is pinned and stays.
pub open spec fn local_dropped(count: u32) -> (u32, bool) {
    if count == 0 || count == MAX_LOCAL_COUNT {
        (count, false)
    } else {
        ((count - 1) as u32, count == 1)
    }
}

/// Whether the word that the clearing of the presence bit found held nothing
/// else: no thread-shared handle was left either.
pub open spec fn local_was_last(previous: u32) -> bool {
    previous == LOCAL_PRESENT
}

/// Whether an atomic increment that found `previous` took the count of
/// thread-shared handles past its limit. The presence bit does not count.
pub open spec fn shared_overflowed(previous: u32) -> bool {
    shared_count(previous) > MAX_SHARED_COUNT
}

/// Whether an atomic decrement found the count of thread-shared handles
/// pinned: beyond every count that an increment within the limit leaves.
pub open spec fn shared_pinned(previous: u32) -> bool {
    shared_count(previous) > MAX_SHARED_COUNT + 1
}

/// Whether an atomic decrement that found `previous` took out the last
/// handle: one thread-shared handle and no thread-confined one.
pub open spec fn shared_was_last(previous: u32) -> bool {
    previous == 1
}

/// Whether a thread-confined handle is the only handle: one in the plain
/// counter and nothing but the presence bit in the word.
pub open spec fn local_sole(count: u32, word: u32) -> bool {
    count == 1 && word == LOCAL_PRESENT
}

/// Whether a thread-shared handle is the only handle.
pub open spec fn shared_sole(word: u32) -> bool {
    word == 1
}

/// Whether the atomic `or` that found `previous` won the claim: the presence
/// bit was clear.
pub open spec fn claim_wins(previous: u32) -> bool {
    previous < LOCAL_PRESENT
}

/// Decides a thread-confined clone from the counter read: the value to write
/// back, or `None` where the counter is full.
pub fn local_clone_step(count: u32) -> (next: Option<u32>)
    ensures
        next == local_cloned(count),
{
    if count == MAX_LOCAL_COUNT {
        None
    } else {
        Some(count + 1)
    }
}

/// Decides a thread-confined drop from the counter read: the value to write
/// back and whether the presence bit is to be cleared.
pub fn local_drop_step(count: u32) -> (after: (u32, bool))
    ensures
        after == local_dropped(count),
    opens_invariants none
    no_unwind
{
    if count == 0 || count == MAX_LOCAL_COUNT {
        (count, false)
    } else {
        (count - 1, count == 1)
    }
}

/// Decides from the word that the clearing of the presence bit found
/// whether the last handle of either flavour has gone.
pub fn local_drop_was_last(previous: u32) -> (last: bool)
    ensures
        last == local_was_last(previous),
    opens_invariants none
    no_unwind
{
    previous == LOCAL_PRESENT
}

/// Decides from the word an atomic increment found whether the count of
/// thread-shared handles overflowed, so that it is to be pinned.
pub fn shared_clone_overflowed(previous: u32) -> (full: bool)
    ensures
        full == shared_overflowed(previous),
{
    proof {
        lemma_and_clears_presence(previous);
    }
    (previous & CLEAR_LOCAL) > MAX_SHARED_COUNT
}

/// Decides from the word an atomic decrement found whether the count of
/// thread-shared handles is pinned, so that the decrement is to be taken back.
pub fn shared_drop_pinned(previous: u32) -> (pinned: bool)
    ensures
        pinned == shared_pinned(previous),
    opens_invariants none
    no_unwind
{
    proof {
        lemma_and_clears_presence(previous);
    }
    (previous & CLEAR_LOCAL) > MAX_SHARED_COUNT + 1
}

/// An atomic `or` with `SHARED_PINNED` leaves the count of thread-shared
/// handles pinned, whatever the word held, and so does one decrement after
/// it; the presence bit stays as it was.
pub proof fn lemma_or_pins(word: u32)
    ensures
        shared_pinned(word | SHARED_PINNED),
        shared_pinned(((word | SHARED_PINNED) - 1) as u32),
        local_present(word | SHARED_PINNED) == local_present(word),
        local_present(((word | SHARED_PINNED) - 1) as u32) == local_present(word),
{
    let pinned = word | SHARED_PINNED;
    assert(word >= 0x8000_0000u32 ==> (word | 0x6000_0000u32) >= 0xE000_0000u32)
        by (bit_vector);
    assert(word < 0x8000_0000u32 ==> 0x6000_0000u32 <= (word | 0x6000_0000u32) < 0x8000_0000u32)
        by (bit_vector);
}

/// Decides from the word an atomic decrement found whether the last handle
/// of either flavour has gone.
pub fn shared_drop_was_last(previous: u32) -> (last: bool)
    ensures
        last == shared_was_last(previous),
    opens_invariants none
    no_unwind
{
    previous == 1
}

/// Decides from the two values read whether a thread-confined handle is the
/// only handle.
pub fn local_is_sole(count: u32, word: u32) -> (sole: bool)
    ensures
        sole == local_sole(count, word),
{
    count == 1 && word == LOCAL_PRESENT
}

/// Decides from the word read whether a thread-shared handle is the only handle.
pub fn shared_is_sole(word: u32) -> (sole: bool)
    ensures
        sole == shared_sole(word),
{
    word == 1
}

/// Decides from the word that the atomic `or` found whether the claim is won.
pub fn claim_won(previous: u32) -> (won: bool)
    ensures
        won == claim_wins(previous),
{
    previous < LOCAL_PRESENT
}

/// The plain counter and the shared word that a record born thread-confined
/// starts with: one handle in the counter, nothing but the presence bit in
/// the word.
pub fn first_local() -> (first: (u32, u32))
    ensures
        first == (1u32, LOCAL_PRESENT),
{
    (1, LOCAL_PRESENT)
}

/// The plain counter and the shared word that a record born thread-shared
/// starts with: no handle in the counter, one in the word, presence bit clear.
pub fn first_shared() -> (first: (u32, u32))
    ensures
        first == (0u32, 1u32),
{
    (0, 1)
}

/// The counting block of the scheme, shared by both flavours.
pub struct HybridCounters {
    local_count: AtomicU32,
    shared_count: AtomicU32,
    born: Ghost<(u32, u32)>,
}

impl HybridCounters {
    /// The plain counter and the shared word that the block was made with.
    pub closed spec fn born_with(&self) -> (u32, u32) {
        self.born@
    }

    /// A block whose plain counter and shared word start with `first`.
    fn new_with(first: (u32, u32)) -> (block: HybridCounters)
        ensures
            block.born_with() == first,
    {
        HybridCounters {
            local_count: AtomicU32::new(first.0),
            shared_count: AtomicU32::new(first.1),
            born: Ghost(first),
        }
    }

    /// A block for a record born thread-confined: one handle in the plain
    /// counter, nothing but the presence bit in the word.
    pub(crate) fn new_local() -> (block: HybridCounters)
        ensures
            block.born_with() == (1u32, LOCAL_PRESENT),
    {
        HybridCounters::new_with(first_local())
    }

    /// A block for a record born thread-shared: no handle in the plain
    /// counter, one in the word, presence bit clear.
    pub(crate) fn new_shared() -> (block: HybridCounters)
        ensures
            block.born_with() == (0u32, 1u32),
    {
        HybridCounters::new_with(first_shared())
    }

    /// Whether a thread-confined handle is the only handle; the word is read
    /// with acquire ordering.
    pub(crate) fn local_is_unique(&self) -> bool {
        let count: u32 = load_u32(&self.local_count);
        let word: u32 = self.shared_count.load(Ordering::Acquire);
        local_is_sole(count, word)
    }

    /// Counts one more thread-confined handle by a plain read and write and
    /// tells whether the counter had room. A full counter stays as it is.
    pub(crate) fn local_clone(&self) -> bool {
        let count: u32 = load_u32(&self.local_count);
        match local_clone_step(count) {
            Some(next) => {
                store_u32(&self.local_count, next);
                true
            },
            None => false,
        }
    }

    /// Counts one thread-confined handle out. When none is left the presence
    /// bit is cleared by one releasing atomic `and`, and the handle was the
    /// last of either flavour where that found nothing but the bit; the
    /// thread that sees so passes an acquire fence first.
    pub(crate) fn local_drop(&self) -> bool
        opens_invariants none
        no_unwind
    {
        let count: u32 = load_u32(&self.local_count);
        let (next, emptied) = local_drop_step(count);
        store_u32(&self.local_count, next);
        if emptied {
            let previous: u32 = fetch_and_u32(&self.shared_count, CLEAR_LOCAL);
            if local_drop_was_last(previous) {
                acquire_fence();
                true
            } else {
                false
            }
        } else {
            false
        }
    }

    /// Whether a thread-shared handle is the only handle; the word is read
    /// with acquire ordering.
    pub(crate) fn shared_is_unique(&self) -> bool {
        shared_is_sole(self.shared_count.load(Ordering::Acquire))
    }

    /// Counts one more thread-shared handle by a relaxed atomic increment and
    /// tells whether the count had room. An increment past the limit pins the
    /// count by an atomic `or` and is taken back.
    pub(crate) fn shared_clone(&self) -> bool {
        let previous: u32 = self.shared_count.fetch_add(1, Ordering::Relaxed);
        if shared_clone_overflowed(previous) {
            self.shared_count.fetch_or(SHARED_PINNED, Ordering::Relaxed);
            self.shared_count.fetch_sub(1, Ordering::Relaxed);
            false
        } else {
            true
        }
    }

    /// Counts one thread-shared handle out by a releasing atomic decrement
    /// and tells whether it was the last handle of either flavour; the
    /// thread that takes the last one out passes an acquire fence first. A
    /// decrement that finds the count pinned is taken back.
    pub(crate) fn shared_drop(&self) -> bool
        opens_invariants none
        no_unwind
    {
        let previous: u32 = fetch_sub_u32(&self.shared_count, 1);
        if shared_drop_pinned(previous) {
            fetch_add_u32(&self.shared_count, 1);
            false
        } else if shared_drop_was_last(previous) {
            acquire_fence();
            true
        } else {
            false
        }
    }

    /// Sets the presence bit by one acquiring atomic `or` and hands back the
    /// word that it found.
    pub(crate) fn set_presence(&self) -> u32 {
        self.shared_count.fetch_or(LOCAL_PRESENT, Ordering::Acquire)
    }

    /// The claim of the thread-confined side: one atomic `or` sets the
    /// presence bit, and the claim is won where the bit was clear. The winner
    /// counts one thread-confined handle in. A lost claim has written the bit
    /// over itself and changed nothing.
    pub(crate) fn claim(&self) -> bool {
        let previous: u32 = self.set_presence();
        if claim_won(previous) {
            self.local_clone();
            true
        } else {
            false
        }
    }

    /// The promotion to the thread-shared side: it counts one thread-shared
    /// handle in, or pins a count without room, and always succeeds.
    pub(crate) fn promote(&self) -> (promoted: bool)
        ensures
            promoted,
    {
        self.shared_clone();
        true
    }
}

/// Marks the thread-confined flavour of a hybrid record.
pub struct LocalMode;

/// Marks the thread-shared flavour of a hybrid record.
pub struct SharedMode;

/// A flavour of the hybrid scheme, chosen by `MODE`.
pub struct HybridMeta<MODE> {
    mode: PhantomData<MODE>,
}

impl Algorithm<HybridMeta<LocalMode>, HybridMeta<SharedMode>> for HybridMeta<LocalMode> {
    type Block = HybridCounters;

    type Confinement = Rc<()>;

    fn create() -> (block: HybridCounters)
        ensures
            block.born_with() == (1u32, LOCAL_PRESENT),
    {
        HybridCounters::new_local()
    }

    fn is_unique(block: &HybridCounters) -> bool {
        block.local_is_unique()
    }

    fn clone(block: &HybridCounters) -> bool {
        block.local_clone()
    }

    fn drop(block: &HybridCounters) -> bool {
        block.local_drop()
    }

    open spec fn grants_into() -> Grant {
        Grant::Always
    }

    open spec fn grants_to() -> Grant {
        Grant::Always
    }

    /// Always succeeds: the thread-shared handle is counted in, and the
    /// caller's own handle goes out when it is dropped.
    fn try_into_other(block: &HybridCounters) -> bool {
        block.promote()
    }

    /// Always succeeds: both flavours live on one record.
    fn try_to_other(block: &HybridCounters) -> bool {
        block.promote()
    }
}

impl Algorithm<HybridMeta<SharedMode>, HybridMeta<LocalMode>> for HybridMeta<SharedMode> {
    type Block = HybridCounters;

    type Confinement = ();

    fn create() -> (block: HybridCounters)
        ensures
            block.born_with() == (0u32, 1u32),
    {
        HybridCounters::new_shared()
    }

    fn is_unique(block: &HybridCounters) -> bool {
        block.shared_is_unique()
    }

    fn clone(block: &HybridCounters) -> bool {
        block.shared_clone()
    }

    fn drop(block: &HybridCounters) -> bool {
        block.shared_drop()
    }

    open spec fn grants_into() -> Grant {
        Grant::ByState
    }

    open spec fn grants_to() -> Grant {
        Grant::ByState
    }

    /// Succeeds where the claim is won; the caller's own handle goes out
    /// when it is dropped.
    fn try_into_other(block: &HybridCounters) -> bool {
        block.claim()
    }

    /// Succeeds where the claim is won.
    fn try_to_other(block: &HybridCounters) -> bool {
        block.claim()
    }
}

} // verus!
