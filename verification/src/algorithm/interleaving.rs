//! The hybrid block with its operations split at every atomic access, so
//! that the steps of handles on different threads interleave freely.
//!
//! An operation on the thread-shared side is one atomic read-modify-write
//! and stays one step. Two operations are more than one access: the drop of
//! the last thread-confined handle writes the plain counter and then clears
//! the presence bit, and a won claim sets the presence bit and then writes
//! the plain counter. Between their two steps any other handle may act.

use crate::algorithm::hybrid::claim_wins;
use crate::algorithm::hybrid::local_cloned;
use crate::algorithm::hybrid::local_dropped;
use crate::algorithm::hybrid::local_present;
use crate::algorithm::hybrid::local_sole;
use crate::algorithm::hybrid::shared_sole;
use crate::algorithm::hybrid::local_was_last;
use crate::algorithm::hybrid::shared_overflowed;
use crate::algorithm::hybrid::shared_was_last;
use crate::algorithm::hybrid::with_presence;
use crate::algorithm::hybrid::MAX_LOCAL_COUNT;
use crate::algorithm::hybrid::without_presence;
use crate::algorithm::model::HybridOp;
use crate::algorithm::model::HybridState;
use vstd::prelude::*;

verus! {

/// What a hybrid block holds, and which operation is between its two steps.
pub struct Interleaved {
    /// The plain counter and the shared word.
    pub block: HybridState,
    /// The last thread-confined handle is counted out of the plain counter,
    /// and the presence bit is not cleared yet.
    pub clearing: bool,
    /// A claim has set the presence bit, and its handle is not counted into
    /// the plain counter yet.
    pub claiming: bool,
}

/// One step of one handle.
pub enum Atom {
    /// A thread-confined handle is cloned.
    LocalClone,
    /// A thread-confined handle is counted out of the plain counter.
    LocalDropCount,
    /// The presence bit is cleared after the last thread-confined handle.
    LocalDropClear,
    /// A thread-shared handle is cloned.
    SharedClone,
    /// A thread-shared handle is dropped.
    SharedDrop,
    /// A thread-confined handle mints a thread-shared one.
    Promote,
    /// A thread-shared handle sets the presence bit to claim the
    /// thread-confined side.
    ClaimOr,
    /// The winner of the claim counts its handle into the plain counter.
    ClaimCount,
}

impl Interleaved {
    /// The block at rest, no operation between its steps.
    pub open spec fn at_rest(block: HybridState) -> Interleaved {
        Interleaved { block, clearing: false, claiming: false }
    }

    /// The live handles: those counted, and the thread-confined handle whose
    /// drop is between its steps.
    pub open spec fn handles(self) -> nat {
        self.block.handles() + if self.clearing {
            1nat
        } else {
            0nat
        }
    }

    /// The presence bit is set exactly while thread-confined handles exist, one
    /// is being dropped or one is being claimed; the plain counter is not
    /// full; it is zero
    /// between the two steps of either; and the claimant keeps its own
    /// thread-shared handle.
    pub open spec fn inv(self) -> bool {
        &&& local_present(self.block.word) == (self.block.local > 0 || self.clearing
            || self.claiming)
        &&& self.block.local < MAX_LOCAL_COUNT
        &&& self.clearing ==> self.block.local == 0
        &&& self.claiming ==> self.block.local == 0 && self.block.shared_handles() >= 1
        &&& !(self.clearing && self.claiming)
    }

    /// Whether a handle can take the step: a handle of the acting flavour
    /// exists and is not itself between the steps of another operation.
    pub open spec fn enabled(self, atom: Atom) -> bool {
        match atom {
            Atom::LocalClone => self.block.local >= 1 && self.block.local + 1 < MAX_LOCAL_COUNT,
            Atom::LocalDropCount => self.block.local >= 1,
            Atom::LocalDropClear => self.clearing,
            Atom::SharedClone => self.block.shared_handles() >= 1 && !shared_overflowed(
                self.block.word,
            ),
            Atom::SharedDrop => self.block.shared_handles() >= 1 && (self.claiming
                ==> self.block.shared_handles() >= 2),
            Atom::Promote => self.block.local >= 1 && !shared_overflowed(self.block.word),
            Atom::ClaimOr => self.block.shared_handles() >= 1,
            Atom::ClaimCount => self.claiming,
        }
    }

    /// The block after the step.
    pub open spec fn step(self, atom: Atom) -> Interleaved {
        match atom {
            Atom::LocalClone => Interleaved {
                block: self.block.step(HybridOp::LocalClone),
                ..self
            },
            Atom::LocalDropCount => {
                let (local, emptied) = local_dropped(self.block.local);
                Interleaved {
                    block: HybridState { local, ..self.block },
                    clearing: emptied,
                    ..self
                }
            },
            Atom::LocalDropClear => Interleaved {
                block: HybridState { word: without_presence(self.block.word), ..self.block },
                clearing: false,
                ..self
            },
            Atom::SharedClone => Interleaved {
                block: self.block.step(HybridOp::SharedClone),
                ..self
            },
            Atom::SharedDrop => Interleaved {
                block: self.block.step(HybridOp::SharedDrop),
                ..self
            },
            Atom::Promote => Interleaved { block: self.block.step(HybridOp::Promote), ..self },
            Atom::ClaimOr => Interleaved {
                block: HybridState { word: with_presence(self.block.word), ..self.block },
                claiming: self.claiming || claim_wins(self.block.word),
                ..self
            },
            Atom::ClaimCount => Interleaved {
                block: HybridState {
                    local: local_cloned(self.block.local).unwrap(),
                    ..self.block
                },
                claiming: false,
                ..self
            },
        }
    }

    /// Whether the step reports that the last handle has gone.
    pub open spec fn frees(self, atom: Atom) -> bool {
        match atom {
            Atom::LocalDropClear => local_was_last(self.block.word),
            Atom::SharedDrop => shared_was_last(self.block.word),
            _ => false,
        }
    }

    /// The block after the steps of `atoms`, first to last.
    pub open spec fn run(self, atoms: Seq<Atom>) -> Interleaved
        decreases atoms.len(),
    {
        if atoms.len() == 0 {
            self
        } else {
            self.run(atoms.drop_last()).step(atoms.last())
        }
    }

    /// Whether each step of `atoms` can be taken when its turn comes.
    pub open spec fn admits(self, atoms: Seq<Atom>) -> bool
        decreases atoms.len(),
    {
        if atoms.len() == 0 {
            true
        } else {
            self.admits(atoms.drop_last()) && self.run(atoms.drop_last()).enabled(atoms.last())
        }
    }

    /// How often a step of `atoms` reports that the last handle has gone.
    pub open spec fn frees_in(self, atoms: Seq<Atom>) -> nat
        decreases atoms.len(),
    {
        if atoms.len() == 0 {
            0
        } else {
            let before = self.frees_in(atoms.drop_last());
            if self.run(atoms.drop_last()).frees(atoms.last()) {
                before + 1
            } else {
                before
            }
        }
    }
}

/// A well-formed block at rest meets the invariant and has the live handles
/// that it counts.
pub proof fn lemma_at_rest(block: HybridState)
    requires
        block.wf(),
    ensures
        Interleaved::at_rest(block).inv(),
        Interleaved::at_rest(block).handles() == block.handles(),
{
}

/// Every step keeps the invariant, and it reports that the last handle has
/// gone exactly when no handle is left after it.
pub proof fn lemma_atom(s: Interleaved, atom: Atom)
    requires
        s.inv(),
        s.enabled(atom),
    ensures
        s.step(atom).inv(),
        s.frees(atom) <==> s.step(atom).handles() == 0,
        match atom {
            Atom::LocalClone | Atom::SharedClone | Atom::Promote | Atom::ClaimCount => s.step(
                atom,
            ).handles() == s.handles() + 1,
            Atom::LocalDropClear | Atom::SharedDrop => s.step(atom).handles() == s.handles() - 1,
            Atom::LocalDropCount => s.step(atom).handles() == if s.block.local == 1 {
                s.handles()
            } else {
                (s.handles() - 1) as nat
            },
            Atom::ClaimOr => s.step(atom).handles() == s.handles(),
        },
{
}

/// Where no handle is left, no step can be taken.
pub proof fn lemma_dead_is_final(s: Interleaved, atom: Atom)
    requires
        s.inv(),
        s.handles() == 0,
    ensures
        !s.enabled(atom),
{
}

/// However the steps of the handles interleave, the record is given back
/// exactly once if no handle is left at the end, and not at all while a
/// handle is left.
pub proof fn lemma_freed_exactly_once(s: Interleaved, atoms: Seq<Atom>)
    requires
        s.inv(),
        s.handles() >= 1,
        s.admits(atoms),
    ensures
        s.run(atoms).inv(),
        s.frees_in(atoms) == if s.run(atoms).handles() == 0 {
            1nat
        } else {
            0nat
        },
    decreases atoms.len(),
{
    if atoms.len() > 0 {
        let before = s.run(atoms.drop_last());
        lemma_freed_exactly_once(s, atoms.drop_last());
        if before.handles() == 0 {
            lemma_dead_is_final(before, atoms.last());
        }
        lemma_atom(before, atoms.last());
    }
}

/// A claim is won exactly when no thread-confined handle exists, none is
/// between the steps of its drop, and no other claim is between its steps.
/// A lost claim leaves the block as it was, so the presence bit stays as the
/// holder of the thread-confined side set it.
pub proof fn lemma_claim_under_interleaving(s: Interleaved)
    requires
        s.inv(),
        s.enabled(Atom::ClaimOr),
    ensures
        claim_wins(s.block.word) <==> (s.block.local == 0 && !s.clearing && !s.claiming),
        !claim_wins(s.block.word) ==> s.step(Atom::ClaimOr) == s,
        !claim_wins(s.step(Atom::ClaimOr).block.word),
{
}

/// Whatever is between its steps on other threads, a handle is told that it
/// is the only handle exactly when one handle is live, both flavours
/// together, and no won claim is about to count another one in.
pub proof fn lemma_unique_under_interleaving(s: Interleaved)
    requires
        s.inv(),
    ensures
        s.block.local >= 1 ==> (local_sole(s.block.local, s.block.word) <==> s.handles() == 1),
        s.block.shared_handles() >= 1 ==> (shared_sole(s.block.word) <==> s.handles() == 1
            && !s.claiming),
{
}

/// The two steps of the drop of the last thread-confined handle, with
/// nothing between them, are the drop as one operation; so are the two
/// steps of a won claim the claim. Every other operation is one step.
pub proof fn lemma_steps_make_operations(block: HybridState)
    requires
        block.wf(),
    ensures
        block.enabled(HybridOp::LocalDrop) ==> {
            let s = Interleaved::at_rest(block);
            let counted = s.step(Atom::LocalDropCount);
            if counted.clearing {
                &&& counted.step(Atom::LocalDropClear) == Interleaved::at_rest(
                    block.step(HybridOp::LocalDrop),
                )
                &&& counted.frees(Atom::LocalDropClear) == block.frees(HybridOp::LocalDrop)
            } else {
                &&& counted == Interleaved::at_rest(block.step(HybridOp::LocalDrop))
                &&& !block.frees(HybridOp::LocalDrop)
            }
        },
        block.enabled(HybridOp::Claim) ==> {
            let s = Interleaved::at_rest(block);
            let claimed = s.step(Atom::ClaimOr);
            if claimed.claiming {
                claimed.step(Atom::ClaimCount) == Interleaved::at_rest(
                    block.step(HybridOp::Claim),
                )
            } else {
                claimed == Interleaved::at_rest(block.step(HybridOp::Claim))
            }
        },
        block.enabled(HybridOp::LocalClone) ==> Interleaved::at_rest(block).step(Atom::LocalClone)
            == Interleaved::at_rest(block.step(HybridOp::LocalClone)),
        block.enabled(HybridOp::SharedClone) ==> Interleaved::at_rest(block).step(
            Atom::SharedClone,
        ) == Interleaved::at_rest(block.step(HybridOp::SharedClone)),
        block.enabled(HybridOp::SharedDrop) ==> Interleaved::at_rest(block).step(Atom::SharedDrop)
            == Interleaved::at_rest(block.step(HybridOp::SharedDrop)),
        block.enabled(HybridOp::Promote) ==> Interleaved::at_rest(block).step(Atom::Promote)
            == Interleaved::at_rest(block.step(HybridOp::Promote)),
{
}

} // verus!
