//! Reference-counted handles in two flavours over one record: a
//! thread-confined flavour with plain bookkeeping and a thread-shared
//! flavour with atomic bookkeeping, convertible into each other without
//! copying the payload.
//!
//! A record holds the counting block of its scheme and the payload. The
//! allocation is owned through an `Arc`, which gives it back once the last
//! handle has gone; the counting block keeps the count of each flavour and
//! decides uniqueness and every change of flavour.
//!
//! No function here stops the program. A counter that has no room for one
//! more handle is pinned: it counts no handle in or out from then on, its
//! record is never again unique, and `try_clone` reports it, so that the
//! caller can stop where that is the policy.

pub mod algorithm;
pub mod arc;
pub mod layout;
pub mod rc;

pub use algorithm::hybrid::HybridMeta;
pub use algorithm::hybrid::LocalMode;
pub use algorithm::hybrid::SharedMode;
pub use algorithm::hybrid_threads::ThreadTracker;
pub use algorithm::hybrid_threads::TrackedCounters;
pub use algorithm::hybrid_threads::TrackedMeta;
pub use algorithm::regular::LocalMeta;
pub use algorithm::regular::SharedMeta;
pub use algorithm::Algorithm;
pub use algorithm::Grant;

use crate::algorithm::hybrid::LOCAL_PRESENT;
use crate::algorithm::hybrid_threads::first_owner_of;
use crate::algorithm::hybrid_threads::recordable;
use std::marker::PhantomData;
use std::sync::Arc;
use vstd::prelude::*;
use vstd::string::StringSliceAdditionalSpecFns;

verus! {

/// The record behind the handles: the counting block and the payload, in one
/// allocation.
pub struct FlexRcInner<B, T> {
    metadata: B,
    data: T,
}

impl<B, T> FlexRcInner<B, T> {
    /// The payload of the record.
    pub closed spec fn payload(&self) -> T {
        self.data
    }

    /// The counting block of the record.
    pub closed spec fn block(&self) -> B {
        self.metadata
    }

    /// A record of a counting block and a payload.
    fn new(metadata: B, data: T) -> (record: Self)
        ensures
            record.payload() == data,
            record.block() == metadata,
    {
        FlexRcInner { metadata, data }
    }

    /// Read access to the payload of the record.
    fn payload_ref(&self) -> (payload: &T)
        ensures
            *payload == self.payload(),
    {
        &self.data
    }
}

/// A handle of flavour `META` on a record whose other flavour is `META2`.
pub struct FlexRc<META, META2, T> where META: Algorithm<META, META2> {
    inner: Arc<FlexRcInner<META::Block, T>>,
    flavor: PhantomData<(META, META2, META::Confinement)>,
}

/// A thread-confined handle of the independent-counter scheme.
pub type LocalRc<T> = FlexRc<LocalMeta, SharedMeta, T>;

/// A thread-shared handle of the independent-counter scheme.
pub type SharedRc<T> = FlexRc<SharedMeta, LocalMeta, T>;

/// A thread-confined handle of the hybrid scheme.
pub type LocalHybridRc<T> = FlexRc<HybridMeta<LocalMode>, HybridMeta<SharedMode>, T>;

/// A thread-shared handle of the hybrid scheme.
pub type SharedHybridRc<T> = FlexRc<HybridMeta<SharedMode>, HybridMeta<LocalMode>, T>;

/// A thread-confined handle of the hybrid scheme with thread tracking.
pub type LocalTrackedRc<T> = FlexRc<TrackedMeta<LocalMode>, TrackedMeta<SharedMode>, T>;

/// A thread-shared handle of the hybrid scheme with thread tracking.
pub type SharedTrackedRc<T> = FlexRc<TrackedMeta<SharedMode>, TrackedMeta<LocalMode>, T>;

/// `Arc::get_mut`: a mutable reference to what the `Arc` holds where no other
/// pointer to the allocation exists, and `None` otherwise. What is written
/// through the reference is what the `Arc` holds afterwards; with `None` the
/// `Arc` is as it was.
#[verifier::external_body]
fn exclusive<B, T>(record: &mut Arc<FlexRcInner<B, T>>) -> (slot: Option<&mut FlexRcInner<B, T>>)
    ensures
        match slot {
            Some(r) => *r == **old(record) && **final(record) == *final(r),
            None => *final(record) == *old(record),
        },
{
    Arc::get_mut(record)
}

impl<META, META2, T> View for FlexRc<META, META2, T> where META: Algorithm<META, META2> {
    type V = T;

    /// The payload that the handle gives access to.
    open spec fn view(&self) -> T {
        self.record().payload()
    }
}

impl<META, META2, T> FlexRc<META, META2, T> where META: Algorithm<META, META2> {
    /// The record that the handle points to.
    pub closed spec fn record(&self) -> FlexRcInner<META::Block, T> {
        *self.inner
    }

    /// The handle on a record.
    fn from_inner(inner: Arc<FlexRcInner<META::Block, T>>) -> (rc: Self)
        ensures
            rc.record() == *inner,
            rc@ == inner.payload(),
    {
        FlexRc { inner, flavor: PhantomData }
    }

    /// The record of the handle.
    fn as_inner(&self) -> (record: &FlexRcInner<META::Block, T>)
        ensures
            *record == self.record(),
            record.payload() == self@,
        opens_invariants none
        no_unwind
    {
        &self.inner
    }

    /// Settles a request to change flavour once the counting block has
    /// answered it: granted, the handle of the other flavour on the same
    /// record, and this one goes; refused, this handle as it was.
    fn converted_if<OTHER>(self, granted: bool) -> (converted: Result<
        FlexRc<OTHER, META, T>,
        Self,
    >) where OTHER: Algorithm<OTHER, META, Block = META::Block>
        ensures
            granted ==> converted is Ok,
            !granted ==> converted is Err,
            match converted {
                Ok(other) => other.record() == self.record() && other@ == self@,
                Err(same) => same == self,
            },
    {
        if granted {
            Ok(FlexRc::from_inner(Arc::clone(&self.inner)))
        } else {
            Err(self)
        }
    }

    /// Settles a request for a handle of the other flavour beside this one
    /// once the counting block has answered it: granted, that handle on the
    /// same record; refused, none.
    fn minted_if<OTHER>(&self, granted: bool) -> (minted: Option<
        FlexRc<OTHER, META, T>,
    >) where OTHER: Algorithm<OTHER, META, Block = META::Block>
        ensures
            granted == (minted is Some),
            minted matches Some(other) ==> other.record() == self.record() && other@ == self@,
    {
        if granted {
            Some(FlexRc::from_inner(Arc::clone(&self.inner)))
        } else {
            None
        }
    }

    /// Whether this is the only handle on its record, both flavours together.
    pub fn is_unique(&self) -> bool {
        META::is_unique(&self.as_inner().metadata)
    }

    /// Mutable access to the payload for the only handle on its record;
    /// `None` for a handle that is not unique, and then nothing has changed.
    /// What is written through the reference is the payload afterwards; the
    /// counting block stays.
    pub fn get_mut(&mut self) -> (slot: Option<&mut T>)
        ensures
            final(self).record().block() == old(self).record().block(),
            match slot {
                Some(payload) => *payload == old(self)@ && final(self)@ == *final(payload),
                None => final(self).record() == old(self).record(),
            },
    {
        let unique: bool = self.is_unique();
        self.payload_if(unique)
    }

    /// Settles a request for mutable access once the counting block has said
    /// whether the handle is the only one: a handle that is not gets `None`;
    /// for the only handle the owner of the allocation is asked for the
    /// reference.
    fn payload_if(&mut self, unique: bool) -> (slot: Option<&mut T>)
        ensures
            !unique ==> slot is None,
            final(self).record().block() == old(self).record().block(),
            match slot {
                Some(payload) => *payload == old(self)@ && final(self)@ == *final(payload),
                None => final(self).record() == old(self).record(),
            },
    {
        if unique {
            match exclusive(&mut self.inner) {
                Some(record) => Some(&mut record.data),
                None => None,
            }
        } else {
            None
        }
    }
}

impl<META, META2, T> FlexRc<META, META2, T> where
    META: Algorithm<META, META2>,
    META2: Algorithm<META2, META, Block = META::Block>,
 {
    /// A handle on a new record that holds `data`.
    pub fn new(data: T) -> (rc: Self)
        ensures
            rc@ == data,
            call_ensures(META::create, (), rc.record().block()),
    {
        Self::from_inner(Arc::new(FlexRcInner::new(META::create(), data)))
    }

    /// A handle on a new record that holds a clone of `data`.
    pub fn from_ref(data: &T) -> (rc: Self) where T: Clone
        ensures
            cloned(*data, rc@),
            call_ensures(META::create, (), rc.record().block()),
    {
        Self::new(data.clone())
    }

    /// Tries to turn the handle into one of the other flavour on the same
    /// record. Where the scheme refuses, the handle comes back as it was.
    pub fn try_into_other(self) -> (converted: Result<FlexRc<META2, META, T>, Self>)
        ensures
            match converted {
                Ok(other) => other.record() == self.record() && other@ == self@,
                Err(same) => same == self,
            },
            META::grants_into() == Grant::Always ==> converted is Ok,
            META::grants_into() == Grant::Never ==> converted is Err,
    {
        let granted: bool = META::try_into_other(&self.as_inner().metadata);
        self.converted_if(granted)
    }

    /// Tries to make a handle of the other flavour on the same record beside
    /// this one; `None` where the scheme refuses.
    pub fn try_to_other(&self) -> (minted: Option<FlexRc<META2, META, T>>)
        ensures
            minted matches Some(other) ==> other.record() == self.record() && other@ == self@,
            META::grants_to() == Grant::Always ==> minted is Some,
            META::grants_to() == Grant::Never ==> minted is None,
    {
        let granted: bool = META::try_to_other(&self.as_inner().metadata);
        self.minted_if(granted)
    }

    /// Turns the handle into one of the other flavour: on the same record
    /// where the scheme allows it, else on a new record that holds a clone of
    /// the payload.
    pub fn into_other(self) -> (converted: FlexRc<META2, META, T>) where T: Clone
        ensures
            cloned(self@, converted@),
            META::grants_into() == Grant::Always ==> converted.record() == self.record(),
    {
        let ghost before = self;
        let answer = self.try_into_other();
        Self::converted_or_cloned(answer, Ghost(before))
    }

    /// Settles a conversion that must not fail once the attempt on the same
    /// record has been answered: granted, the handle that the attempt gave;
    /// refused, a handle on a new record that holds a clone of the payload.
    fn converted_or_cloned(
        answer: Result<FlexRc<META2, META, T>, Self>,
        before: Ghost<Self>,
    ) -> (converted: FlexRc<META2, META, T>) where T: Clone
        requires
            match answer {
                Ok(other) => other.record() == before@.record() && other@ == before@@,
                Err(same) => same == before@,
            },
        ensures
            answer matches Ok(other) ==> converted == other,
            answer is Err ==> call_ensures(META2::create, (), converted.record().block()),
            cloned(before@@, converted@),
    {
        match answer {
            Ok(other) => other,
            Err(this) => FlexRc::from_ref(this.as_inner().payload_ref()),
        }
    }
}

/// Copies the elements of a slice, in order, into a new vector.
fn copy_elements<T: Copy>(data: &[T]) -> (elements: Vec<T>)
    ensures
        elements@ == data@,
{
    let len: usize = data.len();
    let mut elements: Vec<T> = Vec::with_capacity(len);
    let mut i: usize = 0;
    while i < len
        invariant
            len == data@.len(),
            i <= len,
            elements@ == data@.subrange(0, i as int),
        decreases len - i,
    {
        elements.push(data[i]);
        i = i + 1;
        assert(elements@ == data@.subrange(0, i as int));
    }
    assert(data@.subrange(0, len as int) == data@);
    elements
}

impl<META, META2, T> FlexRc<META, META2, Vec<T>> where
    META: Algorithm<META, META2>,
    META2: Algorithm<META2, META, Block = META::Block>,
    T: Copy,
 {
    /// A handle on a new record that holds a copy of the elements of `data`.
    pub fn from_slice(data: &[T]) -> (rc: Self)
        ensures
            rc@@ == data@,
            call_ensures(META::create, (), rc.record().block()),
    {
        Self::from_slice_priv(data)
    }

    /// A handle on a new record that holds a copy of the elements of `data`.
    fn from_slice_priv(data: &[T]) -> (rc: Self)
        ensures
            rc@@ == data@,
            call_ensures(META::create, (), rc.record().block()),
    {
        Self::new(copy_elements(data))
    }
}

impl<META, META2> FlexRc<META, META2, Vec<u8>> where
    META: Algorithm<META, META2>,
    META2: Algorithm<META2, META, Block = META::Block>,
 {
    /// A handle on a new record that holds a copy of the bytes of `s`.
    pub fn from_str_ref(s: &str) -> (rc: Self)
        ensures
            rc@@ == s.spec_bytes(),
            call_ensures(META::create, (), rc.record().block()),
    {
        Self::from_slice_priv(s.as_bytes())
    }
}

impl<T> FlexRc<TrackedMeta<LocalMode>, TrackedMeta<SharedMode>, T> {
    /// A thread-confined handle on a new record that holds `data` and names
    /// the thread `thread_id` as the owner of its thread-confined side.
    pub fn new_on_thread(data: T, thread_id: usize) -> (rc: Self)
        ensures
            rc@ == data,
            rc.record().block().born_with() == (first_owner_of(thread_id), 1u32, LOCAL_PRESENT),
    {
        Self::from_inner(Arc::new(FlexRcInner::new(TrackedCounters::new_local(thread_id), data)))
    }
}

impl<T> FlexRc<TrackedMeta<SharedMode>, TrackedMeta<LocalMode>, T> {
    /// Tries to turn the handle into a thread-confined one for the thread
    /// `thread_id`, on the same record. Where the claim is lost, the handle
    /// comes back as it was.
    pub fn try_into_local_on(self, thread_id: usize) -> (converted: Result<
        FlexRc<TrackedMeta<LocalMode>, TrackedMeta<SharedMode>, T>,
        Self,
    >)
        ensures
            match converted {
                Ok(other) => other.record() == self.record() && other@ == self@,
                Err(same) => same == self,
            },
            !recordable(thread_id) ==> converted is Err,
    {
        let granted: bool = self.as_inner().metadata.claim_for(thread_id);
        self.converted_if(granted)
    }

    /// Tries to make a thread-confined handle for the thread `thread_id` on
    /// the same record beside this one; `None` where the claim is lost.
    pub fn try_to_local_on(&self, thread_id: usize) -> (minted: Option<
        FlexRc<TrackedMeta<LocalMode>, TrackedMeta<SharedMode>, T>,
    >)
        ensures
            minted matches Some(other) ==> other.record() == self.record() && other@ == self@,
            !recordable(thread_id) ==> minted is None,
    {
        let granted: bool = self.as_inner().metadata.claim_for(thread_id);
        self.minted_if(granted)
    }
}

impl<META, META2, T> std::ops::Deref for FlexRc<META, META2, T> where META: Algorithm<META, META2> {
    type Target = T;

    /// Read access to the payload.
    fn deref(&self) -> (payload: &T)
        ensures
            *payload == self@,
    {
        &self.as_inner().data
    }
}

impl<META, META2, T> Clone for FlexRc<META, META2, T> where META: Algorithm<META, META2> {
    /// One more handle of the same flavour on the same record. Where the
    /// counter has no room, the handle is made all the same and the counter
    /// is pinned; `try_clone` makes no handle then.
    fn clone(&self) -> (rc: Self)
        ensures
            rc.record() == self.record(),
            rc@ == self@,
    {
        META::clone(&self.as_inner().metadata);
        Self::from_inner(Arc::clone(&self.inner))
    }
}

impl<META, META2, T> FlexRc<META, META2, T> where META: Algorithm<META, META2> {
    /// One more handle of the same flavour on the same record, or `None`
    /// where the counter had no room for it and is pinned from now on.
    pub fn try_clone(&self) -> (cloned: Option<Self>)
        ensures
            cloned matches Some(rc) ==> rc.record() == self.record() && rc@ == self@,
    {
        let counted: bool = META::clone(&self.as_inner().metadata);
        self.cloned_if(counted)
    }

    /// Settles a request for one more handle once the counting block has
    /// answered it: counted in, the handle on the same record; without room,
    /// none.
    fn cloned_if(&self, counted: bool) -> (cloned: Option<Self>)
        ensures
            counted == (cloned is Some),
            cloned matches Some(rc) ==> rc.record() == self.record() && rc@ == self@,
    {
        if counted {
            Some(Self::from_inner(Arc::clone(&self.inner)))
        } else {
            None
        }
    }
}

impl<META, META2, T> Drop for FlexRc<META, META2, T> where META: Algorithm<META, META2> {
    /// Counts the handle out of the counting block. The record goes once the
    /// last handle has gone.
    fn drop(&mut self)
        opens_invariants none
        no_unwind
    {
        META::drop(&self.as_inner().metadata);
    }
}

} // verus!
