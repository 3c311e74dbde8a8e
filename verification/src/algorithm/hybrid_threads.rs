//! Thread tracking for the hybrid scheme: a block that also records which
//! thread holds the thread-confined side, so that this thread may claim it
//! again while every other thread is turned away, and the tracker that hands
//! out the small identities recorded there.

use crate::algorithm::hybrid::claim_wins;
use crate::algorithm::hybrid::HybridCounters;
use crate::algorithm::hybrid::LocalMode;
use crate::algorithm::hybrid::LOCAL_PRESENT;
use crate::algorithm::hybrid::SharedMode;
use crate::algorithm::Algorithm;
use crate::algorithm::Grant;
use std::collections::HashSet;
use std::marker::PhantomData;
use std::rc::Rc;
use std::sync::atomic::AtomicUsize;
use std::sync::atomic::Ordering;
use vstd::arithmetic::div_mod::lemma_fundamental_div_mod;
use vstd::arithmetic::div_mod::lemma_fundamental_div_mod_converse;
use vstd::arithmetic::div_mod::lemma_small_mod;
use vstd::prelude::*;
use vstd::set_lib::lemma_len_subset;

verus! {

/// The identity that names no thread.
pub const NO_THREAD: usize = 0;

/// Identities are below this bound.
pub const MAX_THREADS: usize = usize::MAX / 2;

/// The top bit of the owner word: a claim is being decided.
pub const THREAD_ID_LOCKED: usize = usize::MAX / 2 + 1;

/// Every bit of the owner word but the top one.
pub const THREAD_ID_UNLOCKED: usize = usize::MAX / 2;

/// How often a claim asks for the lock before it gives up.
pub const SPIN_LIMIT: u64 = 0xFFFF_FFFF_FFFF_FFFFu64;

/// Whether the atomic `or` that found `previous_owner` took the lock: the
/// lock bit was clear.
pub open spec fn lock_taken(previous_owner: usize) -> bool {
    previous_owner < THREAD_ID_LOCKED
}

/// Whether a tracked claim is won: the claimant is the recorded owner, or
/// the presence bit was clear. The identity that names no thread is never
/// the recorded owner.
pub open spec fn tracked_claim_wins(
    thread_id: usize,
    previous_owner: usize,
    previous_word: u32,
) -> bool {
    (thread_id != NO_THREAD && thread_id == previous_owner) || claim_wins(previous_word)
}

/// Whether an identity can be recorded as owner: it leaves the lock bit clear.
pub open spec fn recordable(thread_id: usize) -> bool {
    thread_id < THREAD_ID_LOCKED
}

/// Decides from the owner word that the atomic `or` found whether the lock
/// was taken.
pub fn lock_acquired(previous_owner: usize) -> (taken: bool)
    ensures
        taken == lock_taken(previous_owner),
{
    previous_owner < THREAD_ID_LOCKED
}

/// Decides a tracked claim from the claimant, the owner found when the lock
/// was taken and the shared word found when the presence bit was set.
pub fn tracked_claim_won(thread_id: usize, previous_owner: usize, previous_word: u32) -> (won:
    bool)
    ensures
        won == tracked_claim_wins(thread_id, previous_owner, previous_word),
{
    (thread_id != NO_THREAD && thread_id == previous_owner) || previous_word
        < LOCAL_PRESENT
}

/// The owner that a record born thread-confined on `thread_id` starts with:
/// the thread itself, or no thread where its identity cannot be recorded.
pub open spec fn first_owner_of(thread_id: usize) -> usize {
    if recordable(thread_id) {
        thread_id
    } else {
        NO_THREAD
    }
}

/// Decides the owner that a record born thread-confined on `thread_id`
/// starts with.
pub fn first_owner(thread_id: usize) -> (owner: usize)
    ensures
        owner == first_owner_of(thread_id),
{
    if thread_id < THREAD_ID_LOCKED {
        thread_id
    } else {
        NO_THREAD
    }
}

/// Decides whether an identity can be recorded as owner.
pub fn is_recordable(thread_id: usize) -> (ok: bool)
    ensures
        ok == recordable(thread_id),
{
    thread_id < THREAD_ID_LOCKED
}

/// The identity that is tried at the `k`-th step after `start`: the
/// identities from one up to the bound, in a circle.
pub open spec fn probe(start: usize, k: nat) -> usize {
    ((start + k - 1) % (MAX_THREADS - 1) + 1) as usize
}

/// Whether `id` is the first identity after `start`, in the circle, that
/// `issued` does not hold.
pub open spec fn first_free(start: usize, issued: Set<usize>, id: usize) -> bool {
    exists|k: nat|
        {
            &&& 1 <= k < MAX_THREADS
            &&& #[trigger] probe(start, k) == id
            &&& !issued.contains(id)
            &&& forall|j: nat| 1 <= j < k ==> issued.contains(#[trigger] probe(start, j))
        }
}

/// The identity after `current` in the circle.
pub open spec fn successor(current: usize) -> usize {
    if current + 1 >= MAX_THREADS {
        1
    } else {
        (current + 1) as usize
    }
}

/// Every identity tried is in range.
pub proof fn lemma_probe_in_range(start: usize, k: nat)
    requires
        k >= 1,
    ensures
        1 <= probe(start, k) < MAX_THREADS,
{
}

/// The first identity tried is the successor of the start.
pub proof fn lemma_probe_first(start: usize)
    requires
        start < MAX_THREADS,
    ensures
        probe(start, 1) == successor(start),
{
    let m = MAX_THREADS - 1;
    if start < m {
        lemma_small_mod(start as nat, m as nat);
    } else {
        lemma_fundamental_div_mod_converse(start as int, m, 1, 0);
    }
}

/// Each identity tried is the successor of the one tried before.
pub proof fn lemma_probe_next(start: usize, k: nat)
    requires
        k >= 1,
    ensures
        probe(start, k + 1) == successor(probe(start, k)),
{
    let m = MAX_THREADS - 1;
    let x = start + k - 1;
    let q = x / m;
    let r = x % m;
    lemma_fundamental_div_mod(x, m);
    if r + 1 < m {
        assert(x + 1 == q * m + (r + 1)) by (nonlinear_arith)
            requires
                x == m * q + r,
        ;
        lemma_fundamental_div_mod_converse(x + 1, m, q, r + 1);
    } else {
        assert(x + 1 == (q + 1) * m + 0) by (nonlinear_arith)
            requires
                x == m * q + r,
                r + 1 == m,
        ;
        lemma_fundamental_div_mod_converse(x + 1, m, q + 1, 0);
    }
}

/// Within one turn of the circle no identity is tried twice.
pub proof fn lemma_probe_distinct(start: usize, i: nat, j: nat)
    requires
        1 <= i < j,
        j < MAX_THREADS,
    ensures
        probe(start, i) != probe(start, j),
{
    let m = MAX_THREADS - 1;
    let x = start + i - 1;
    let y = start + j - 1;
    lemma_fundamental_div_mod(x, m);
    lemma_fundamental_div_mod(y, m);
    if x % m == y % m {
        let d = y / m - x / m;
        assert(y - x == m * d) by (nonlinear_arith)
            requires
                x == m * (x / m) + (x % m),
                y == m * (y / m) + (y % m),
                x % m == y % m,
                d == y / m - x / m,
        ;
        assert(false) by (nonlinear_arith)
            requires
                y - x == m * d,
                0 < y - x < m,
        ;
    }
}

/// Identities tried in a row, all of them issued, are no more than the
/// issued identities.
pub proof fn lemma_probes_bounded(start: usize, k: nat, issued: Set<usize>)
    requires
        issued.finite(),
        k < MAX_THREADS,
        forall|j: nat| 1 <= j <= k ==> issued.contains(#[trigger] probe(start, j)),
    ensures
        k <= issued.len(),
{
    let tried = Seq::new(k, |i: int| probe(start, (i + 1) as nat));
    assert forall|a: int, b: int| 0 <= a < k && 0 <= b < k && a != b implies tried[a]
        != tried[b] by {
        if a < b {
            lemma_probe_distinct(start, (a + 1) as nat, (b + 1) as nat);
        } else {
            lemma_probe_distinct(start, (b + 1) as nat, (a + 1) as nat);
        }
    }
    tried.unique_seq_to_set();
    assert forall|id: usize| tried.to_set().contains(id) implies issued.contains(id) by {
        let i = choose|i: int| 0 <= i < k && tried[i] == id;
        assert(issued.contains(probe(start, (i + 1) as nat)));
    }
    lemma_len_subset(tried.to_set(), issued);
}

/// Hands out small identities, each to one holder at a time, and takes them
/// back for reuse.
pub struct ThreadTracker {
    counter: usize,
    used_counters: HashSet<usize>,
}

impl ThreadTracker {
    /// The last identity is below the bound, finitely many are out, and each
    /// of them is an identity: not below one and below the bound.
    pub closed spec fn wf(&self) -> bool {
        &&& self.counter < MAX_THREADS
        &&& self.used_counters@.finite()
        &&& forall|id: usize| #[trigger]
            self.used_counters@.contains(id) ==> 1 <= id < MAX_THREADS
    }

    /// The identities that are out.
    pub closed spec fn issued(&self) -> Set<usize> {
        self.used_counters@
    }

    /// The identity handed out last, or `NO_THREAD` before the first.
    pub closed spec fn last_issued(&self) -> usize {
        self.counter
    }

    /// A tracker with no identity out.
    pub fn new() -> (tracker: ThreadTracker)
        ensures
            tracker.wf(),
            tracker.issued() == Set::<usize>::empty(),
            tracker.last_issued() == NO_THREAD,
    {
        ThreadTracker { counter: 0, used_counters: HashSet::new() }
    }

    /// Whether an identity is left to hand out.
    pub fn has_free_id(&self) -> (free: bool)
        requires
            self.wf(),
        ensures
            free == (self.issued().len() < MAX_THREADS - 1),
    {
        broadcast use vstd::std_specs::hash::group_hash_axioms;

        self.used_counters.len() < MAX_THREADS - 1
    }

    /// Hands out the first identity after the last one, in the circle from
    /// one up to the bound, that is not out, and remembers it as the last.
    pub fn get_new_id(&mut self) -> (id: usize)
        requires
            old(self).wf(),
            old(self).issued().len() < MAX_THREADS - 1,
        ensures
            final(self).wf(),
            1 <= id < MAX_THREADS,
            first_free(old(self).last_issued(), old(self).issued(), id),
            final(self).issued() == old(self).issued().insert(id),
            final(self).last_issued() == id,
    {
        broadcast use vstd::std_specs::hash::group_hash_axioms;

        let ghost start = self.counter;
        let ghost issued = self.used_counters@;
        let ghost mut tried: nat = 0;
        loop
            invariant
                self.counter < MAX_THREADS,
                self.used_counters@ == issued,
                start == old(self).last_issued(),
                issued == old(self).issued(),
                issued.finite(),
                forall|id: usize| #[trigger] issued.contains(id) ==> 1 <= id < MAX_THREADS,
                issued.len() < MAX_THREADS - 1,
                start < MAX_THREADS,
                tried < MAX_THREADS - 1,
                tried == 0 ==> self.counter == start,
                tried > 0 ==> self.counter == probe(start, tried),
                forall|j: nat| 1 <= j <= tried ==> issued.contains(#[trigger] probe(start, j)),
            decreases MAX_THREADS - 1 - tried,
        {
            let next: usize = if self.counter + 1 >= MAX_THREADS {
                1
            } else {
                self.counter + 1
            };
            proof {
                if tried == 0 {
                    lemma_probe_first(start);
                } else {
                    lemma_probe_next(start, tried);
                }
                lemma_probe_in_range(start, tried + 1);
            }
            self.counter = next;
            if self.used_counters.insert(next) {
                assert(first_free(start, issued, next)) by {
                    assert(probe(start, tried + 1) == next);
                }
                return next;
            }
            proof {
                assert(issued.insert(next) =~= issued);
                tried = tried + 1;
                lemma_probes_bounded(start, tried, issued);
            }
        }
    }

    /// Takes an identity back: it is out no longer.
    pub fn return_id(&mut self, id: usize)
        requires
            old(self).wf(),
        ensures
            final(self).wf(),
            final(self).issued() == old(self).issued().remove(id),
            final(self).last_issued() == old(self).last_issued(),
    {
        broadcast use vstd::std_specs::hash::group_hash_axioms;

        self.used_counters.remove(&id);
    }
}

/// `std::hint::spin_loop`: a hint to the processor that returns at once.
#[verifier::external_body]
fn spin_hint() {
    std::hint::spin_loop()
}

/// The counting block of the tracked hybrid scheme: the hybrid counters and
/// the owner word, which holds the identity of the thread on the
/// thread-confined side and, in its top bit, the lock of the claim.
pub struct TrackedCounters {
    thread_id: AtomicUsize,
    counts: HybridCounters,
    born_owner: Ghost<usize>,
}

impl TrackedCounters {
    /// The owner, the plain counter and the shared word that the block was
    /// made with.
    pub closed spec fn born_with(&self) -> (usize, u32, u32) {
        (self.born_owner@, self.counts.born_with().0, self.counts.born_with().1)
    }

    /// A block with the owner `owner` around the hybrid counters `counts`.
    fn new_with(owner: usize, counts: HybridCounters) -> (block: TrackedCounters)
        ensures
            block.born_with() == (owner, counts.born_with().0, counts.born_with().1),
    {
        TrackedCounters { thread_id: AtomicUsize::new(owner), counts, born_owner: Ghost(owner) }
    }

    /// A block for a record born thread-confined on the thread `thread_id`.
    /// An identity that cannot be recorded leaves the owner unnamed.
    pub fn new_local(thread_id: usize) -> (block: TrackedCounters)
        ensures
            block.born_with() == (first_owner_of(thread_id), 1u32, LOCAL_PRESENT),
    {
        TrackedCounters::new_with(first_owner(thread_id), HybridCounters::new_local())
    }

    /// A block for a record born thread-shared: no owner yet.
    pub fn new_shared() -> (block: TrackedCounters)
        ensures
            block.born_with() == (NO_THREAD, 0u32, 1u32),
    {
        TrackedCounters::new_with(NO_THREAD, HybridCounters::new_shared())
    }

    /// The hybrid counters of the block.
    fn counts(&self) -> &HybridCounters
        opens_invariants none
        no_unwind
    {
        &self.counts
    }

    /// Asks for the lock of the claim until it is taken or the limit of
    /// tries is reached, and hands back the owner word found last: the lock
    /// is held where that word has the lock bit clear.
    fn lock(&self) -> usize {
        let mut previous_owner: usize = self.thread_id.fetch_or(
            THREAD_ID_LOCKED,
            Ordering::Acquire,
        );
        let mut tries: u64 = 0;
        while !lock_acquired(previous_owner) && tries < SPIN_LIMIT
            invariant
                tries <= SPIN_LIMIT,
            decreases SPIN_LIMIT - tries,
        {
            spin_hint();
            tries = tries + 1;
            previous_owner = self.thread_id.fetch_or(THREAD_ID_LOCKED, Ordering::Acquire);
        }
        previous_owner
    }

    /// The claim of the thread-confined side by the thread `thread_id`.
    ///
    /// The claim takes the lock in the owner word, sets the presence bit by
    /// one atomic `or`, and is won where the claimant is the recorded owner
    /// or the bit was clear. The winner records itself as owner, which gives
    /// the lock back, and counts one thread-confined handle in. The loser
    /// gives the lock back and leaves owner and presence bit as the winner
    /// set them. A claimant whose identity cannot be recorded, or that does
    /// not get the lock within the limit of tries, loses.
    pub fn claim_for(&self, thread_id: usize) -> (won: bool)
        ensures
            !recordable(thread_id) ==> !won,
    {
        if !is_recordable(thread_id) {
            return false;
        }
        let previous_owner: usize = self.lock();
        if !lock_acquired(previous_owner) {
            return false;
        }
        let previous_word: u32 = self.counts.set_presence();
        if tracked_claim_won(thread_id, previous_owner, previous_word) {
            self.thread_id.store(thread_id, Ordering::Release);
            self.counts.local_clone();
            true
        } else {
            self.thread_id.fetch_and(THREAD_ID_UNLOCKED, Ordering::Release);
            false
        }
    }
}

/// A flavour of the tracked hybrid scheme, chosen by `MODE`.
pub struct TrackedMeta<MODE> {
    mode: PhantomData<MODE>,
}

impl Algorithm<TrackedMeta<LocalMode>, TrackedMeta<SharedMode>> for TrackedMeta<LocalMode> {
    type Block = TrackedCounters;

    type Confinement = Rc<()>;

    /// The record is born thread-confined with its owner unnamed.
    fn create() -> (block: TrackedCounters)
        ensures
            block.born_with() == (NO_THREAD, 1u32, LOCAL_PRESENT),
    {
        TrackedCounters::new_local(NO_THREAD)
    }

    fn is_unique(block: &TrackedCounters) -> bool {
        block.counts().local_is_unique()
    }

    fn clone(block: &TrackedCounters) -> bool {
        block.counts().local_clone()
    }

    fn drop(block: &TrackedCounters) -> bool {
        block.counts().local_drop()
    }

    open spec fn grants_into() -> Grant {
        Grant::Always
    }

    open spec fn grants_to() -> Grant {
        Grant::Always
    }

    /// Always succeeds, as in the untracked scheme.
    fn try_into_other(block: &TrackedCounters) -> bool {
        block.counts().promote()
    }

    /// Always succeeds, as in the untracked scheme.
    fn try_to_other(block: &TrackedCounters) -> bool {
        block.counts().promote()
    }
}

impl Algorithm<TrackedMeta<SharedMode>, TrackedMeta<LocalMode>> for TrackedMeta<SharedMode> {
    type Block = TrackedCounters;

    type Confinement = ();

    fn create() -> (block: TrackedCounters)
        ensures
            block.born_with() == (NO_THREAD, 0u32, 1u32),
    {
        TrackedCounters::new_shared()
    }

    fn is_unique(block: &TrackedCounters) -> bool {
        block.counts().shared_is_unique()
    }

    fn clone(block: &TrackedCounters) -> bool {
        block.counts().shared_clone()
    }

    fn drop(block: &TrackedCounters) -> bool {
        block.counts().shared_drop()
    }

    open spec fn grants_into() -> Grant {
        Grant::ByState
    }

    open spec fn grants_to() -> Grant {
        Grant::ByState
    }

    /// The claim of a claimant that names no thread: won where the presence
    /// bit was clear.
    fn try_into_other(block: &TrackedCounters) -> bool {
        block.claim_for(NO_THREAD)
    }

    /// The claim of a claimant that names no thread: won where the presence
    /// bit was clear.
    fn try_to_other(block: &TrackedCounters) -> bool {
        block.claim_for(NO_THREAD)
    }
}

} // verus!
