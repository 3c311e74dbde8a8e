//! The counting contract that every scheme meets, and the few calls into
//! `std` that the schemes share.

pub mod hybrid;
pub mod hybrid_threads;
pub mod interleaving;
pub mod model;
pub mod regular;

use std::sync::atomic::AtomicU32;
use std::sync::atomic::AtomicUsize;
use std::sync::atomic::Ordering;
use vstd::prelude::*;

verus! {

/// How a flavour answers a request for a handle of the complementary flavour.
pub enum Grant {
    /// Every request is granted.
    Always,
    /// No request is granted.
    Never,
    /// The block decides: by uniqueness, or by the outcome of a claim.
    ByState,
}

/// One flavour of a counting scheme.
///
/// `META` is the flavour itself and `META2` the complementary flavour of the
/// same scheme. Both work on one counting block, `Block`, which lives in the
/// record beside the payload: a handle changes flavour without the record
/// being moved or copied. The functions read and write the block through atomic
/// operations, so what they return depends on what the other handles have
/// done; what each observed value means is fixed by the pure functions of the
/// scheme's module.
pub trait Algorithm<META, META2> {
    /// The counting state held in the record, the same type for both flavours.
    type Block;

    /// A marker that decides whether a handle of this flavour may leave its thread.
    type Confinement;

    /// A block that counts one live handle of this flavour and none of the other.
    fn create() -> Self::Block;

    /// Whether the block counts exactly one live handle, both flavours together.
    fn is_unique(block: &Self::Block) -> bool;

    /// Counts one more handle of this flavour and tells whether the counter
    /// had room for it. A counter without room is pinned: from then on it
    /// counts no handle in or out, never counts exactly one handle and never
    /// reports the last one.
    fn clone(block: &Self::Block) -> bool;

    /// Counts one handle of this flavour out and tells whether it was the last
    /// handle of either flavour. The default never reports the last handle;
    /// every scheme replaces it.
    fn drop(block: &Self::Block) -> bool
        opens_invariants none
        no_unwind
    {
        false
    }

    /// How the flavour answers a handle that wants to change flavour.
    spec fn grants_into() -> Grant;

    /// How the flavour answers a handle that wants a handle of the
    /// complementary flavour beside it.
    spec fn grants_to() -> Grant;

    /// Tries to count in a handle of the complementary flavour in exchange for
    /// the caller's own, which the caller then drops. On `false` nothing has changed.
    fn try_into_other(block: &Self::Block) -> (granted: bool)
        ensures
            Self::grants_into() == Grant::Always ==> granted,
            Self::grants_into() == Grant::Never ==> !granted,
    ;

    /// Tries to count in a handle of the complementary flavour beside the
    /// caller's own, which stays. On `false` nothing has changed.
    fn try_to_other(block: &Self::Block) -> (granted: bool)
        ensures
            Self::grants_to() == Grant::Always ==> granted,
            Self::grants_to() == Grant::Never ==> !granted,
    ;
}

/// `core::sync::atomic::fence` with `Acquire`, an ordering it accepts: the
/// call returns and does not unwind.
#[verifier::external_body]
pub(crate) fn acquire_fence()
    opens_invariants none
    no_unwind
{
    std::sync::atomic::fence(Ordering::Acquire)
}

/// `AtomicUsize::load` with `Relaxed`, an ordering it accepts: the call
/// returns and does not unwind. Nothing is claimed of the value.
#[verifier::external_body]
pub(crate) fn load_usize(cell: &AtomicUsize) -> (value: usize)
    opens_invariants none
    no_unwind
{
    cell.load(Ordering::Relaxed)
}

/// `AtomicUsize::store` with `Relaxed`, an ordering it accepts: the call
/// returns and does not unwind.
#[verifier::external_body]
pub(crate) fn store_usize(cell: &AtomicUsize, value: usize)
    opens_invariants none
    no_unwind
{
    cell.store(value, Ordering::Relaxed)
}

/// `AtomicUsize::fetch_add` with `Relaxed`: the call returns and does not
/// unwind. Nothing is claimed of the value that was there.
#[verifier::external_body]
pub(crate) fn fetch_add_usize(cell: &AtomicUsize, amount: usize) -> (previous: usize)
    opens_invariants none
    no_unwind
{
    cell.fetch_add(amount, Ordering::Relaxed)
}

/// `AtomicU32::fetch_add` with `Relaxed`: the call returns and does not
/// unwind. Nothing is claimed of the value that was there.
#[verifier::external_body]
pub(crate) fn fetch_add_u32(cell: &AtomicU32, amount: u32) -> (previous: u32)
    opens_invariants none
    no_unwind
{
    cell.fetch_add(amount, Ordering::Relaxed)
}

/// `AtomicUsize::fetch_sub` with `Release`: the call returns and does not
/// unwind. Nothing is claimed of the value that was there.
#[verifier::external_body]
pub(crate) fn fetch_sub_usize(cell: &AtomicUsize, amount: usize) -> (previous: usize)
    opens_invariants none
    no_unwind
{
    cell.fetch_sub(amount, Ordering::Release)
}

/// `AtomicU32::load` with `Relaxed`, an ordering it accepts: the call returns
/// and does not unwind. Nothing is claimed of the value.
#[verifier::external_body]
pub(crate) fn load_u32(cell: &AtomicU32) -> (value: u32)
    opens_invariants none
    no_unwind
{
    cell.load(Ordering::Relaxed)
}

/// `AtomicU32::store` with `Relaxed`, an ordering it accepts: the call
/// returns and does not unwind.
#[verifier::external_body]
pub(crate) fn store_u32(cell: &AtomicU32, value: u32)
    opens_invariants none
    no_unwind
{
    cell.store(value, Ordering::Relaxed)
}

/// `AtomicU32::fetch_sub` with `Release`: the call returns and does not
/// unwind. Nothing is claimed of the value that was there.
#[verifier::external_body]
pub(crate) fn fetch_sub_u32(cell: &AtomicU32, amount: u32) -> (previous: u32)
    opens_invariants none
    no_unwind
{
    cell.fetch_sub(amount, Ordering::Release)
}

/// `AtomicU32::fetch_and` with `Release`: the call returns and does not
/// unwind. Nothing is claimed of the value that was there.
#[verifier::external_body]
pub(crate) fn fetch_and_u32(cell: &AtomicU32, mask: u32) -> (previous: u32)
    opens_invariants none
    no_unwind
{
    cell.fetch_and(mask, Ordering::Release)
}

} // verus!
