//! The independent-counter scheme: one counter per record, read and written
//! plainly by the thread-confined flavour and by atomic read-modify-write by
//! the thread-shared flavour. A record is wholly of one flavour at a time, so
//! a handle changes flavour only while it is the sole handle.

use crate::algorithm::acquire_fence;
use crate::algorithm::fetch_add_usize;
use crate::algorithm::fetch_sub_usize;
use crate::algorithm::load_usize;
use crate::algorithm::store_usize;
use crate::algorithm::Algorithm;
use crate::algorithm::Grant;
use std::rc::Rc;
use std::sync::atomic::AtomicUsize;
use std::sync::atomic::Ordering;
use vstd::prelude::*;

verus! {

/// The largest count that thread-confined handles may reach.
pub const MAX_LOCAL_COUNT: usize = usize::MAX;

/// The largest count that thread-shared handles may reach; the upper half of
/// the range is headroom for increments that race past the limit.
pub const MAX_SHARED_COUNT: usize = usize::MAX / 2;

/// The two top bits, which an atomic `or` sets to pin a counter of
/// thread-shared handles deep in the headroom.
pub const SHARED_PINNED: usize = usize::MAX - usize::MAX / 4;

/// The counter after one more thread-confined handle, or `None` where the
/// counter is full: a full counter is pinned and stays as it is.
pub open spec fn local_cloned(count: usize) -> Option<usize> {
    if count == MAX_LOCAL_COUNT {
        None
    } else {
        Some((count + 1) as usize)
    }
}

/// The counter after one thread-confined handle has gone, and whether that
/// was the last handle. A counter of zero counts no handle and stays; a full
/// counter is pinned and stays.
pub open spec fn local_dropped(count: usize) -> (usize, bool) {
    if count == 0 || count == MAX_LOCAL_COUNT {
        (count, false)
    } else {
        ((count - 1) as usize, count == 1)
    }
}

/// Whether an atomic increment that found `previous` went past the limit.
pub open spec fn shared_overflowed(previous: usize) -> bool {
    previous > MAX_SHARED_COUNT
}

/// Whether an atomic decrement found the counter pinned: beyond every count
/// that an increment within the limit leaves.
pub open spec fn shared_pinned(previous: usize) -> bool {
    previous > MAX_SHARED_COUNT + 1
}

/// Whether an atomic decrement that found `previous` took the last handle out.
pub open spec fn shared_was_last(previous: usize) -> bool {
    previous == 1
}

/// Whether a counter counts exactly one handle.
pub open spec fn counts_one(count: usize) -> bool {
    count == 1
}

/// Decides a thread-confined clone from the counter read: the value to
/// write back, or `None` where the counter is full.
pub fn local_clone_step(count: usize) -> (next: Option<usize>)
    ensures
        next == local_cloned(count),
{
    if count == MAX_LOCAL_COUNT {
        None
    } else {
        Some(count + 1)
    }
}

/// Decides a thread-confined drop from the counter read: the value to write
/// back and whether the last handle has gone.
pub fn local_drop_step(count: usize) -> (after: (usize, bool))
    ensures
        after == local_dropped(count),
    opens_invariants none
    no_unwind
{
    if count == 0 || count == MAX_LOCAL_COUNT {
        (count, false)
    } else {
        (count - 1, count == 1)
    }
}

/// Decides from the value an atomic increment found whether the count
/// overflowed, so that the counter is to be pinned.
pub fn shared_clone_overflowed(previous: usize) -> (full: bool)
    ensures
        full == shared_overflowed(previous),
{
    previous > MAX_SHARED_COUNT
}

/// Decides from the value an atomic decrement found whether the counter is
/// pinned, so that the decrement is to be taken back.
pub fn shared_drop_pinned(previous: usize) -> (pinned: bool)
    ensures
        pinned == shared_pinned(previous),
    opens_invariants none
    no_unwind
{
    previous > MAX_SHARED_COUNT + 1
}

/// An atomic `or` with `SHARED_PINNED` leaves the counter pinned, whatever it
/// held, and so does one decrement after it.
pub proof fn lemma_or_pins(value: usize)
    ensures
        shared_pinned(value | SHARED_PINNED),
        shared_pinned(((value | SHARED_PINNED) - 1) as usize),
{
    assert(usize::MAX as int == 0xFFFF_FFFF || usize::MAX as int == 0xFFFF_FFFF_FFFF_FFFF);
    if usize::MAX as int == 0xFFFF_FFFF {
        let v = value as u32;
        assert(v | 0xC000_0000u32 >= 0xC000_0000u32) by (bit_vector);
        assert(value | SHARED_PINNED == (v | 0xC000_0000u32) as usize);
    } else {
        let v = value as u64;
        assert(v | 0xC000_0000_0000_0000u64 >= 0xC000_0000_0000_0000u64) by (bit_vector);
        assert(value | SHARED_PINNED == (v | 0xC000_0000_0000_0000u64) as usize);
    }
}

/// Decides from the value an atomic decrement found whether the last handle
/// has gone.
pub fn shared_drop_was_last(previous: usize) -> (last: bool)
    ensures
        last == shared_was_last(previous),
    opens_invariants none
    no_unwind
{
    previous == 1
}

/// Decides from a counter read whether its handle is the only one.
pub fn is_sole(count: usize) -> (sole: bool)
    ensures
        sole == counts_one(count),
{
    count == 1
}

/// The count that a new record starts with: one handle.
pub fn first_count() -> (first: usize)
    ensures
        first == 1,
{
    1
}

/// The counting block of the scheme, shared by both flavours.
pub struct Counter {
    count: AtomicUsize,
    born: Ghost<usize>,
}

impl Counter {
    /// The count that the counter was made with.
    pub closed spec fn born_with(&self) -> usize {
        self.born@
    }

    /// A counter that starts with `first`.
    fn new_with(first: usize) -> (counter: Counter)
        ensures
            counter.born_with() == first,
    {
        Counter { count: AtomicUsize::new(first), born: Ghost(first) }
    }

    /// A counter that counts one handle.
    pub(crate) fn new() -> (counter: Counter)
        ensures
            counter.born_with() == 1,
    {
        Counter::new_with(first_count())
    }

    /// Whether the counter, read plainly, counts one handle.
    pub(crate) fn local_is_unique(&self) -> bool {
        is_sole(load_usize(&self.count))
    }

    /// Counts one more thread-confined handle by a plain read and write and
    /// tells whether the counter had room. A full counter stays as it is.
    pub(crate) fn local_clone(&self) -> bool {
        let count: usize = load_usize(&self.count);
        match local_clone_step(count) {
            Some(next) => {
                store_usize(&self.count, next);
                true
            },
            None => false,
        }
    }

    /// Counts one thread-confined handle out by a plain read and write and
    /// tells whether it was the last handle.
    pub(crate) fn local_drop(&self) -> bool
        opens_invariants none
        no_unwind
    {
        let count: usize = load_usize(&self.count);
        let (next, last) = local_drop_step(count);
        store_usize(&self.count, next);
        last
    }

    /// Whether the counter, read with acquire ordering, counts one handle.
    pub(crate) fn shared_is_unique(&self) -> bool {
        is_sole(self.count.load(Ordering::Acquire))
    }

    /// Counts one more thread-shared handle by a relaxed atomic increment and
    /// tells whether the counter had room. An increment past the limit pins
    /// the counter by an atomic `or` and is taken back.
    pub(crate) fn shared_clone(&self) -> bool {
        let previous: usize = self.count.fetch_add(1, Ordering::Relaxed);
        if shared_clone_overflowed(previous) {
            self.count.fetch_or(SHARED_PINNED, Ordering::Relaxed);
            self.count.fetch_sub(1, Ordering::Relaxed);
            false
        } else {
            true
        }
    }

    /// Counts one thread-shared handle out by a releasing atomic decrement
    /// and tells whether it was the last handle; the thread that takes the
    /// last one out passes an acquire fence first. A decrement that finds the
    /// counter pinned is taken back.
    pub(crate) fn shared_drop(&self) -> bool
        opens_invariants none
        no_unwind
    {
        let previous: usize = fetch_sub_usize(&self.count, 1);
        if shared_drop_pinned(previous) {
            fetch_add_usize(&self.count, 1);
            false
        } else if shared_drop_was_last(previous) {
            acquire_fence();
            true
        } else {
            false
        }
    }
}

/// The thread-confined flavour.
pub struct LocalMeta;

/// The thread-shared flavour.
pub struct SharedMeta;

impl Algorithm<LocalMeta, SharedMeta> for LocalMeta {
    type Block = Counter;

    type Confinement = Rc<()>;

    fn create() -> (block: Counter)
        ensures
            block.born_with() == 1,
    {
        Counter::new()
    }

    fn is_unique(block: &Counter) -> bool {
        block.local_is_unique()
    }

    fn clone(block: &Counter) -> bool {
        block.local_clone()
    }

    fn drop(block: &Counter) -> bool {
        block.local_drop()
    }

    open spec fn grants_into() -> Grant {
        Grant::ByState
    }

    open spec fn grants_to() -> Grant {
        Grant::Never
    }

    /// Succeeds only for the sole handle: other thread-confined handles would
    /// go on writing the counter plainly beside the atomic writes of the new one.
    fn try_into_other(block: &Counter) -> bool {
        if block.local_is_unique() {
            block.shared_clone();
            true
        } else {
            false
        }
    }

    /// Never succeeds: a record of this scheme is of one flavour at a time.
    fn try_to_other(block: &Counter) -> bool {
        false
    }
}

impl Algorithm<SharedMeta, LocalMeta> for SharedMeta {
    type Block = Counter;

    type Confinement = ();

    fn create() -> (block: Counter)
        ensures
            block.born_with() == 1,
    {
        Counter::new()
    }

    fn is_unique(block: &Counter) -> bool {
        block.shared_is_unique()
    }

    fn clone(block: &Counter) -> bool {
        block.shared_clone()
    }

    fn drop(block: &Counter) -> bool {
        block.shared_drop()
    }

    open spec fn grants_into() -> Grant {
        Grant::ByState
    }

    open spec fn grants_to() -> Grant {
        Grant::Never
    }

    /// Succeeds only for the sole handle: other thread-shared handles could
    /// sit on other threads, where the plain writes of the new one would race.
    fn try_into_other(block: &Counter) -> bool {
        if block.shared_is_unique() {
            block.local_clone();
            true
        } else {
            false
        }
    }

    /// Never succeeds: a record of this scheme is of one flavour at a time.
    fn try_to_other(block: &Counter) -> bool {
        false
    }
}

} // verus!
