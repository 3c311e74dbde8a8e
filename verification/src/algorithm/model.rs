//! The counting blocks as state machines, one handle acting at a time, and
//! what holds of every run of them.
//!
//! A state is what the block holds between two operations. Each operation
//! of a handle is one step; the steps are built from the same pure functions
//! that the schemes decide by, and from what the atomic operations leave in
//! the word: an increment leaves one more, a decrement one less, an `or`
//! with the presence bit leaves the bit set and an `and` with the clearing
//! mask leaves it clear. The operations of the hybrid block that are more
//! than one atomic access are split into their steps in `interleaving`.
//!
//! The runs are those in which no counter is pinned: a clone is a step only
//! where the counter has room for it. What holds of a pinned counter is said
//! by `lemma_regular_pinned` and `lemma_hybrid_pinned`.

use crate::algorithm::hybrid::claim_wins;
use crate::algorithm::hybrid::local_cloned;
use crate::algorithm::hybrid::local_dropped;
use crate::algorithm::hybrid::local_present;
use crate::algorithm::hybrid::local_sole;
use crate::algorithm::hybrid::local_was_last;
use crate::algorithm::hybrid::shared_count;
use crate::algorithm::hybrid::shared_overflowed;
use crate::algorithm::hybrid::shared_pinned;
use crate::algorithm::hybrid::shared_sole;
use crate::algorithm::hybrid::shared_was_last;
use crate::algorithm::hybrid::with_presence;
use crate::algorithm::hybrid::without_presence;
use crate::algorithm::hybrid::LOCAL_PRESENT;
use crate::algorithm::hybrid::MAX_LOCAL_COUNT;
use crate::algorithm::hybrid_threads::first_owner_of;
use crate::algorithm::hybrid_threads::tracked_claim_wins;
use crate::algorithm::hybrid_threads::NO_THREAD;
use crate::algorithm::hybrid::HybridMeta;
use crate::algorithm::hybrid::LocalMode;
use crate::algorithm::hybrid::SharedMode;
use crate::algorithm::hybrid_threads::TrackedMeta;
use crate::algorithm::regular;
use crate::algorithm::regular::LocalMeta;
use crate::algorithm::regular::SharedMeta;
use crate::algorithm::Algorithm;
use vstd::layout::align_of;
use vstd::layout::size_of;
use vstd::prelude::*;

verus! {

/// What a hybrid block holds: the plain counter and the shared word.
pub struct HybridState {
    pub local: u32,
    pub word: u32,
}

/// An operation of one handle on a hybrid block.
pub enum HybridOp {
    /// A thread-confined handle is cloned.
    LocalClone,
    /// A thread-confined handle is dropped.
    LocalDrop,
    /// A thread-shared handle is cloned.
    SharedClone,
    /// A thread-shared handle is dropped.
    SharedDrop,
    /// A thread-shared handle claims the thread-confined side.
    Claim,
    /// A thread-confined handle mints a thread-shared one.
    Promote,
}

impl HybridState {
    /// The block of a record born thread-confined.
    pub open spec fn born_local() -> HybridState {
        HybridState { local: 1, word: LOCAL_PRESENT }
    }

    /// The block of a record born thread-shared.
    pub open spec fn born_shared() -> HybridState {
        HybridState { local: 0, word: 1 }
    }

    /// The live thread-confined handles.
    pub open spec fn local_handles(self) -> nat {
        self.local as nat
    }

    /// The live thread-shared handles.
    pub open spec fn shared_handles(self) -> nat {
        shared_count(self.word)
    }

    /// The live handles, both flavours together.
    pub open spec fn handles(self) -> nat {
        self.local_handles() + self.shared_handles()
    }

    /// The presence bit is set exactly while thread-confined handles exist,
    /// and neither counter is pinned.
    pub open spec fn wf(self) -> bool {
        &&& local_present(self.word) == (self.local > 0)
        &&& self.local < MAX_LOCAL_COUNT
        &&& !shared_pinned(self.word)
    }

    /// Whether a handle can do `op`: a handle of the acting flavour exists,
    /// and a clone neither meets nor makes a full counter.
    pub open spec fn enabled(self, op: HybridOp) -> bool {
        match op {
            HybridOp::LocalClone => self.local >= 1 && self.local + 1 < MAX_LOCAL_COUNT,
            HybridOp::LocalDrop => self.local >= 1,
            HybridOp::SharedClone => self.shared_handles() >= 1 && !shared_overflowed(self.word),
            HybridOp::SharedDrop => self.shared_handles() >= 1,
            HybridOp::Claim => self.shared_handles() >= 1,
            HybridOp::Promote => self.local >= 1 && !shared_overflowed(self.word),
        }
    }

    /// The block after `op`.
    pub open spec fn step(self, op: HybridOp) -> HybridState {
        match op {
            HybridOp::LocalClone => HybridState { local: local_cloned(self.local).unwrap(), ..self },
            HybridOp::LocalDrop => {
                let (local, emptied) = local_dropped(self.local);
                if emptied {
                    HybridState { local, word: without_presence(self.word) }
                } else {
                    HybridState { local, ..self }
                }
            },
            HybridOp::SharedClone | HybridOp::Promote => HybridState {
                word: (self.word + 1) as u32,
                ..self
            },
            HybridOp::SharedDrop => HybridState { word: (self.word - 1) as u32, ..self },
            HybridOp::Claim => if claim_wins(self.word) {
                HybridState { local: local_cloned(self.local).unwrap(), word: with_presence(self.word) }
            } else {
                HybridState { word: with_presence(self.word), ..self }
            },
        }
    }

    /// Whether `op` reports that the last handle has gone, so that the
    /// record is to be given back.
    pub open spec fn frees(self, op: HybridOp) -> bool {
        match op {
            HybridOp::LocalDrop => local_dropped(self.local).1 && local_was_last(self.word),
            HybridOp::SharedDrop => shared_was_last(self.word),
            _ => false,
        }
    }

    /// The block after the operations of `ops`, first to last.
    pub open spec fn run(self, ops: Seq<HybridOp>) -> HybridState
        decreases ops.len(),
    {
        if ops.len() == 0 {
            self
        } else {
            self.run(ops.drop_last()).step(ops.last())
        }
    }

    /// Whether each operation of `ops` can be done when its turn comes.
    pub open spec fn admits(self, ops: Seq<HybridOp>) -> bool
        decreases ops.len(),
    {
        if ops.len() == 0 {
            true
        } else {
            self.admits(ops.drop_last()) && self.run(ops.drop_last()).enabled(ops.last())
        }
    }

    /// How often an operation of `ops` reports that the last handle has gone.
    pub open spec fn frees_in(self, ops: Seq<HybridOp>) -> nat
        decreases ops.len(),
    {
        if ops.len() == 0 {
            0
        } else {
            let before = self.frees_in(ops.drop_last());
            if self.run(ops.drop_last()).frees(ops.last()) {
                before + 1
            } else {
                before
            }
        }
    }
}

/// A block is well formed when its record is born, with one live handle, and
/// it is born with the values that the blocks are made with.
pub proof fn lemma_hybrid_born()
    ensures
        HybridState::born_local() == (HybridState { local: 1, word: LOCAL_PRESENT }),
        HybridState::born_shared() == (HybridState { local: 0, word: 1 }),
        HybridState::born_local().wf(),
        HybridState::born_local().local_handles() == 1,
        HybridState::born_local().shared_handles() == 0,
        HybridState::born_shared().wf(),
        HybridState::born_shared().local_handles() == 0,
        HybridState::born_shared().shared_handles() == 1,
{
}

/// Every operation keeps the block well formed and changes the live handles
/// as it says: a clone, a won claim and a promotion add one handle of their
/// flavour, a drop takes one away, and a lost claim changes nothing.
pub proof fn lemma_hybrid_step(s: HybridState, op: HybridOp)
    requires
        s.wf(),
        s.enabled(op),
    ensures
        s.step(op).wf(),
        match op {
            HybridOp::LocalClone => s.step(op).local_handles() == s.local_handles() + 1
                && s.step(op).shared_handles() == s.shared_handles(),
            HybridOp::LocalDrop => s.step(op).local_handles() == s.local_handles() - 1
                && s.step(op).shared_handles() == s.shared_handles(),
            HybridOp::SharedClone | HybridOp::Promote => s.step(op).local_handles()
                == s.local_handles() && s.step(op).shared_handles() == s.shared_handles() + 1,
            HybridOp::SharedDrop => s.step(op).local_handles() == s.local_handles()
                && s.step(op).shared_handles() == s.shared_handles() - 1,
            HybridOp::Claim => if claim_wins(s.word) {
                s.step(op).local_handles() == 1 && s.step(op).shared_handles()
                    == s.shared_handles()
            } else {
                s.step(op) == s
            },
        },
{
}

/// A drop reports that the last handle has gone exactly when no handle of
/// either flavour is left after it; no other operation reports so, and none
/// leaves the block without a handle.
pub proof fn lemma_hybrid_frees_iff_last(s: HybridState, op: HybridOp)
    requires
        s.wf(),
        s.enabled(op),
    ensures
        s.frees(op) <==> s.step(op).handles() == 0,
{
    lemma_hybrid_step(s, op);
}

/// Where no handle is left, no operation can be done.
pub proof fn lemma_hybrid_dead_is_final(s: HybridState, op: HybridOp)
    requires
        s.handles() == 0,
    ensures
        !s.enabled(op),
{
}

/// Along every run from a well-formed block the block stays well formed, and
/// the record is given back exactly once if no handle is left at the end and
/// not at all while a handle is left.
pub proof fn lemma_hybrid_freed_exactly_once(s: HybridState, ops: Seq<HybridOp>)
    requires
        s.wf(),
        s.handles() >= 1,
        s.admits(ops),
    ensures
        s.run(ops).wf(),
        s.frees_in(ops) == if s.run(ops).handles() == 0 {
            1nat
        } else {
            0nat
        },
    decreases ops.len(),
{
    if ops.len() > 0 {
        let before = s.run(ops.drop_last());
        lemma_hybrid_freed_exactly_once(s, ops.drop_last());
        if before.handles() == 0 {
            lemma_hybrid_dead_is_final(before, ops.last());
        }
        lemma_hybrid_step(before, ops.last());
        lemma_hybrid_frees_iff_last(before, ops.last());
    }
}

/// A thread-confined handle is the only handle exactly when one handle is
/// live, both flavours together.
pub proof fn lemma_hybrid_local_unique(s: HybridState)
    requires
        s.wf(),
        s.local_handles() >= 1,
    ensures
        local_sole(s.local, s.word) <==> s.handles() == 1,
{
}

/// A thread-shared handle is the only handle exactly when one handle is
/// live, both flavours together.
pub proof fn lemma_hybrid_shared_unique(s: HybridState)
    requires
        s.wf(),
        s.shared_handles() >= 1,
    ensures
        shared_sole(s.word) <==> s.handles() == 1,
{
}

/// A claim is won exactly when no thread-confined handle is live, and a lost
/// claim leaves the block, the presence bit with it, as the winner set it.
pub proof fn lemma_hybrid_claim(s: HybridState)
    requires
        s.wf(),
        s.enabled(HybridOp::Claim),
    ensures
        claim_wins(s.word) <==> s.local_handles() == 0,
        !claim_wins(s.word) ==> s.step(HybridOp::Claim) == s,
        local_present(s.step(HybridOp::Claim).word),
{
}

/// After a won claim every further claim is lost, whoever makes it, until the
/// thread-confined handles have gone: the presence bit stays as the winner
/// set it.
pub proof fn lemma_hybrid_second_claim_loses(s: HybridState)
    requires
        s.wf(),
        s.enabled(HybridOp::Claim),
        claim_wins(s.word),
    ensures
        s.step(HybridOp::Claim).enabled(HybridOp::Claim),
        !claim_wins(s.step(HybridOp::Claim).word),
        s.step(HybridOp::Claim).step(HybridOp::Claim) == s.step(HybridOp::Claim),
{
}

/// A tracked claim is won exactly when no thread-confined handle is live or
/// the claimant is a named thread and the recorded owner.
pub proof fn lemma_tracked_claim(s: HybridState, thread_id: usize, owner: usize)
    requires
        s.wf(),
    ensures
        tracked_claim_wins(thread_id, owner, s.word) <==> (s.local_handles() == 0 || (thread_id
            != NO_THREAD && thread_id == owner)),
        thread_id != owner && s.local_handles() > 0 ==> !tracked_claim_wins(
            thread_id,
            owner,
            s.word,
        ),
{
}

/// What a tracked hybrid block holds at rest: the hybrid block and the
/// recorded owner. `holder` is the thread on which the thread-confined
/// handles live, `NO_THREAD` where it did not name itself; the block does not
/// hold it.
pub struct TrackedState {
    pub block: HybridState,
    pub owner: usize,
    pub holder: usize,
}

impl TrackedState {
    /// The block of a record born thread-confined on `thread_id`: the thread
    /// is owner and holder, or no thread is named where its identity cannot
    /// be recorded.
    pub open spec fn born_local(thread_id: usize) -> TrackedState {
        TrackedState {
            block: HybridState::born_local(),
            owner: first_owner_of(thread_id),
            holder: first_owner_of(thread_id),
        }
    }

    /// The block of a record born thread-shared.
    pub open spec fn born_shared() -> TrackedState {
        TrackedState { block: HybridState::born_shared(), owner: NO_THREAD, holder: NO_THREAD }
    }

    /// The hybrid block is well formed, and while thread-confined handles
    /// exist the recorded owner is the thread on which they live.
    pub open spec fn wf(self) -> bool {
        self.block.wf() && (self.block.local > 0 ==> self.owner == self.holder)
    }

    /// Whether the claim of the thread `thread_id` is won.
    pub open spec fn claim_won_by(self, thread_id: usize) -> bool {
        tracked_claim_wins(thread_id, self.owner, self.block.word)
    }

    /// The block after the claim of the thread `thread_id`: the winner is
    /// recorded as owner and has one more thread-confined handle; a lost claim
    /// changes nothing.
    pub open spec fn claim_by(self, thread_id: usize) -> TrackedState {
        if self.claim_won_by(thread_id) {
            TrackedState {
                block: HybridState {
                    local: local_cloned(self.block.local).unwrap(),
                    word: with_presence(self.block.word),
                },
                owner: thread_id,
                holder: thread_id,
            }
        } else {
            self
        }
    }

    /// The block after an operation that is no claim, done by a handle that
    /// exists: owner and holder stay.
    pub open spec fn step(self, op: HybridOp) -> TrackedState {
        TrackedState { block: self.block.step(op), ..self }
    }
}

/// A tracked claim is won exactly when no other thread holds the
/// thread-confined side: the side is free, or the claimant names itself and
/// holds it already. The winner holds the side afterwards, and a lost claim
/// leaves owner and presence bit as they were. Every operation keeps the
/// block well formed.
pub proof fn lemma_tracked_claim_by(s: TrackedState, thread_id: usize)
    requires
        s.wf(),
        s.block.shared_handles() >= 1,
        s.block.local + 1 < MAX_LOCAL_COUNT,
    ensures
        s.claim_won_by(thread_id) <==> (s.block.local_handles() == 0 || (thread_id != NO_THREAD
            && thread_id == s.holder)),
        s.claim_by(thread_id).wf(),
        s.claim_won_by(thread_id) ==> {
            &&& s.claim_by(thread_id).holder == thread_id
            &&& s.claim_by(thread_id).block.local_handles() == s.block.local_handles() + 1
            &&& s.claim_by(thread_id).block.shared_handles() == s.block.shared_handles()
        },
        !s.claim_won_by(thread_id) ==> s.claim_by(thread_id) == s,
        forall|op: HybridOp| op != HybridOp::Claim && #[trigger] s.block.enabled(op) ==> s.step(op).wf(),
{
    assert forall|op: HybridOp| op != HybridOp::Claim && #[trigger] s.block.enabled(op) implies s.step(
        op,
    ).wf() by {
        lemma_hybrid_step(s.block, op);
    }
}

/// A thread-confined handle that turns thread-shared and back, both times
/// with success, leaves the block as it was.
pub proof fn lemma_hybrid_round_trip_from_local(s: HybridState)
    requires
        s.wf(),
        s.enabled(HybridOp::Promote),
        claim_wins(s.step(HybridOp::Promote).step(HybridOp::LocalDrop).word),
    ensures
        s.step(HybridOp::Promote).enabled(HybridOp::LocalDrop),
        s.step(HybridOp::Promote).step(HybridOp::LocalDrop).enabled(HybridOp::Claim),
        s.step(HybridOp::Promote).step(HybridOp::LocalDrop).step(HybridOp::Claim).enabled(
            HybridOp::SharedDrop,
        ),
        s.step(HybridOp::Promote).step(HybridOp::LocalDrop).step(HybridOp::Claim).step(
            HybridOp::SharedDrop,
        ) == s,
        !s.step(HybridOp::Promote).frees(HybridOp::LocalDrop),
        !s.step(HybridOp::Promote).step(HybridOp::LocalDrop).step(HybridOp::Claim).frees(
            HybridOp::SharedDrop,
        ),
{
}

/// A thread-shared handle that turns thread-confined and back, both times
/// with success, leaves the block as it was.
pub proof fn lemma_hybrid_round_trip_from_shared(s: HybridState)
    requires
        s.wf(),
        s.enabled(HybridOp::Claim),
        claim_wins(s.word),
        !shared_overflowed(s.word),
    ensures
        s.step(HybridOp::Claim).enabled(HybridOp::SharedDrop),
        s.step(HybridOp::Claim).step(HybridOp::SharedDrop).enabled(HybridOp::Promote),
        s.step(HybridOp::Claim).step(HybridOp::SharedDrop).step(HybridOp::Promote).enabled(
            HybridOp::LocalDrop,
        ),
        s.step(HybridOp::Claim).step(HybridOp::SharedDrop).step(HybridOp::Promote).step(
            HybridOp::LocalDrop,
        ) == s,
        !s.step(HybridOp::Claim).frees(HybridOp::SharedDrop),
        !s.step(HybridOp::Claim).step(HybridOp::SharedDrop).step(HybridOp::Promote).frees(
            HybridOp::LocalDrop,
        ),
{
}

/// What the block of the independent-counter scheme holds: the counter.
pub struct RegularState {
    pub count: usize,
}

/// An operation of one handle on the block of the independent-counter scheme.
pub enum RegularOp {
    /// A thread-confined handle is cloned.
    LocalClone,
    /// A thread-confined handle is dropped.
    LocalDrop,
    /// A thread-shared handle is cloned.
    SharedClone,
    /// A thread-shared handle is dropped.
    SharedDrop,
}

impl RegularState {
    /// The block of a new record, of either flavour.
    pub open spec fn born() -> RegularState {
        RegularState { count: 1 }
    }

    /// The live handles.
    pub open spec fn handles(self) -> nat {
        self.count as nat
    }

    /// The counter is not full.
    pub open spec fn wf(self) -> bool {
        self.count < regular::MAX_LOCAL_COUNT
    }

    /// Whether a handle can do `op`: a handle exists, a clone neither meets
    /// nor makes a full counter, and an atomic decrement does not find the
    /// counter pinned.
    pub open spec fn enabled(self, op: RegularOp) -> bool {
        match op {
            RegularOp::LocalClone => self.count >= 1 && self.count + 1 < regular::MAX_LOCAL_COUNT,
            RegularOp::SharedClone => self.count >= 1 && !regular::shared_overflowed(self.count),
            RegularOp::LocalDrop => self.count >= 1,
            RegularOp::SharedDrop => self.count >= 1 && !regular::shared_pinned(self.count),
        }
    }

    /// The block after `op`.
    pub open spec fn step(self, op: RegularOp) -> RegularState {
        match op {
            RegularOp::LocalClone => RegularState {
                count: regular::local_cloned(self.count).unwrap(),
            },
            RegularOp::LocalDrop => RegularState { count: regular::local_dropped(self.count).0 },
            RegularOp::SharedClone => RegularState { count: (self.count + 1) as usize },
            RegularOp::SharedDrop => RegularState { count: (self.count - 1) as usize },
        }
    }

    /// Whether `op` reports that the last handle has gone.
    pub open spec fn frees(self, op: RegularOp) -> bool {
        match op {
            RegularOp::LocalDrop => regular::local_dropped(self.count).1,
            RegularOp::SharedDrop => regular::shared_was_last(self.count),
            _ => false,
        }
    }

    /// The block after the operations of `ops`, first to last.
    pub open spec fn run(self, ops: Seq<RegularOp>) -> RegularState
        decreases ops.len(),
    {
        if ops.len() == 0 {
            self
        } else {
            self.run(ops.drop_last()).step(ops.last())
        }
    }

    /// Whether each operation of `ops` can be done when its turn comes.
    pub open spec fn admits(self, ops: Seq<RegularOp>) -> bool
        decreases ops.len(),
    {
        if ops.len() == 0 {
            true
        } else {
            self.admits(ops.drop_last()) && self.run(ops.drop_last()).enabled(ops.last())
        }
    }

    /// How often an operation of `ops` reports that the last handle has gone.
    pub open spec fn frees_in(self, ops: Seq<RegularOp>) -> nat
        decreases ops.len(),
    {
        if ops.len() == 0 {
            0
        } else {
            let before = self.frees_in(ops.drop_last());
            if self.run(ops.drop_last()).frees(ops.last()) {
                before + 1
            } else {
                before
            }
        }
    }
}

/// A clone adds one live handle and a drop takes one away; a drop reports
/// that the last handle has gone exactly when none is left after it, and a
/// clone never does.
pub proof fn lemma_regular_step(s: RegularState, op: RegularOp)
    requires
        s.wf(),
        s.enabled(op),
    ensures
        s.step(op).wf(),
        match op {
            RegularOp::LocalClone | RegularOp::SharedClone => s.step(op).handles() == s.handles()
                + 1,
            RegularOp::LocalDrop | RegularOp::SharedDrop => s.step(op).handles() == s.handles()
                - 1,
        },
        s.frees(op) <==> s.step(op).handles() == 0,
{
}

/// Along every run the record is given back exactly once if no handle is
/// left at the end and not at all while a handle is left.
pub proof fn lemma_regular_freed_exactly_once(s: RegularState, ops: Seq<RegularOp>)
    requires
        s.wf(),
        s.handles() >= 1,
        s.admits(ops),
    ensures
        s.run(ops).wf(),
        s.frees_in(ops) == if s.run(ops).handles() == 0 {
            1nat
        } else {
            0nat
        },
    decreases ops.len(),
{
    if ops.len() > 0 {
        let before = s.run(ops.drop_last());
        lemma_regular_freed_exactly_once(s, ops.drop_last());
        if before.handles() >= 1 {
            lemma_regular_step(before, ops.last());
        }
    }
}

/// A handle is the only handle exactly when one handle is live.
pub proof fn lemma_regular_unique(s: RegularState)
    ensures
        regular::counts_one(s.count) <==> s.handles() == 1,
{
}

/// A counter that is pinned stays pinned: a thread-confined clone and drop
/// leave a full counter as it is, an atomic increment that finds the counter
/// past its limit and an atomic decrement that finds it pinned are told so,
/// and a pinned counter neither counts exactly one handle nor reports the
/// last one.
pub proof fn lemma_regular_pinned(count: usize)
    ensures
        count == regular::MAX_LOCAL_COUNT ==> {
            &&& regular::local_cloned(count) is None
            &&& regular::local_dropped(count) == (count, false)
            &&& !regular::counts_one(count)
        },
        regular::shared_pinned(count) ==> {
            &&& regular::shared_overflowed(count)
            &&& !regular::shared_was_last(count)
            &&& !regular::counts_one(count)
        },
        !regular::shared_overflowed(count) ==> !regular::shared_pinned((count + 1) as usize),
{
}

/// A hybrid counter that is pinned stays pinned: a thread-confined clone and
/// drop leave a full plain counter as it is and its presence bit set, an
/// atomic increment that finds the count past its limit and an atomic
/// decrement that finds it pinned are told so, and a pinned word neither
/// shows the only handle nor reports the last one.
pub proof fn lemma_hybrid_pinned(local: u32, word: u32)
    ensures
        local == MAX_LOCAL_COUNT ==> {
            &&& local_cloned(local) is None
            &&& local_dropped(local) == (local, false)
            &&& !local_sole(local, word)
        },
        shared_pinned(word) ==> {
            &&& shared_overflowed(word)
            &&& !shared_was_last(word)
            &&& !shared_sole(word)
            &&& !local_sole(local, word)
            &&& !local_was_last(word)
        },
        !shared_overflowed(word) ==> !shared_pinned((word + 1) as u32),
{
}

/// The only handle that changes flavour, in either direction, is counted in
/// under its new flavour and out under its old one: the block is as it was,
/// and nothing is reported as freed. So is it after the way back.
pub proof fn lemma_regular_round_trip(s: RegularState)
    requires
        regular::counts_one(s.count),
    ensures
        s.enabled(RegularOp::SharedClone),
        s.step(RegularOp::SharedClone).enabled(RegularOp::LocalDrop),
        s.step(RegularOp::SharedClone).step(RegularOp::LocalDrop) == s,
        !s.step(RegularOp::SharedClone).frees(RegularOp::LocalDrop),
        s.enabled(RegularOp::LocalClone),
        s.step(RegularOp::LocalClone).enabled(RegularOp::SharedDrop),
        s.step(RegularOp::LocalClone).step(RegularOp::SharedDrop) == s,
        !s.step(RegularOp::LocalClone).frees(RegularOp::SharedDrop),
{
}

/// Both flavours of a scheme count in a block of one type: what a
/// thread-confined handle finds in the record has the size and the alignment
/// of what a thread-shared handle finds there, whatever the width of the
/// counters.
pub proof fn lemma_flavours_share_layout()
    ensures
        size_of::<<LocalMeta as Algorithm<LocalMeta, SharedMeta>>::Block>() == size_of::<
            <SharedMeta as Algorithm<SharedMeta, LocalMeta>>::Block,
        >(),
        align_of::<<LocalMeta as Algorithm<LocalMeta, SharedMeta>>::Block>() == align_of::<
            <SharedMeta as Algorithm<SharedMeta, LocalMeta>>::Block,
        >(),
        size_of::<
            <HybridMeta<LocalMode> as Algorithm<
                HybridMeta<LocalMode>,
                HybridMeta<SharedMode>,
            >>::Block,
        >() == size_of::<
            <HybridMeta<SharedMode> as Algorithm<
                HybridMeta<SharedMode>,
                HybridMeta<LocalMode>,
            >>::Block,
        >(),
        align_of::<
            <HybridMeta<LocalMode> as Algorithm<
                HybridMeta<LocalMode>,
                HybridMeta<SharedMode>,
            >>::Block,
        >() == align_of::<
            <HybridMeta<SharedMode> as Algorithm<
                HybridMeta<SharedMode>,
                HybridMeta<LocalMode>,
            >>::Block,
        >(),
        size_of::<
            <TrackedMeta<LocalMode> as Algorithm<
                TrackedMeta<LocalMode>,
                TrackedMeta<SharedMode>,
            >>::Block,
        >() == size_of::<
            <TrackedMeta<SharedMode> as Algorithm<
                TrackedMeta<SharedMode>,
                TrackedMeta<LocalMode>,
            >>::Block,
        >(),
        align_of::<
            <TrackedMeta<LocalMode> as Algorithm<
                TrackedMeta<LocalMode>,
                TrackedMeta<SharedMode>,
            >>::Block,
        >() == align_of::<
            <TrackedMeta<SharedMode> as Algorithm<
                TrackedMeta<SharedMode>,
                TrackedMeta<LocalMode>,
            >>::Block,
        >(),
{
}

} // verus!
