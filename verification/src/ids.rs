//! Type-tagged identifiers and the service that mints them.
//!
//! An `OpaqueID<T>` is a 64-bit value tagged at the type level with the
//! entity kind it identifies; the tag has no runtime footprint. IDs carry no
//! meaning beyond identity and creation order. An `IdMinter<T>` hands them
//! out starting at 1 (zero is reserved as a "no such ID" sentinel), strictly
//! increasing, never reused.

use core::marker::PhantomData;
use vstd::prelude::*;

verus! {

/// An opaque (possibly comparable) ID, tagged with the entity kind `T`.
/// Two IDs are comparable only when their tags match; the mint order is the
/// total order.
#[derive(Debug, PartialEq, Eq, PartialOrd, Ord, Hash)]
pub struct OpaqueID<T>(u64, PhantomData<T>);

impl<T> Clone for OpaqueID<T> {
    /// The clone is the same ID.
    fn clone(&self) -> (r: Self)
        ensures
            r == *self,
    {
        OpaqueID(self.0, PhantomData)
    }
}

impl<T> Copy for OpaqueID<T> {
}

impl<T> OpaqueID<T> {
    /// The underlying 64-bit value: identity and mint order, nothing more.
    pub closed spec fn value(self) -> u64 {
        self.0
    }

    /// A copy of this ID, usable where the tag type is not `Copy`.
    pub fn dup(&self) -> (r: Self)
        ensures
            r.value() == self.value(),
    {
        OpaqueID(self.0, PhantomData)
    }

    /// Whether two IDs of the same tag identify the same entity.
    pub fn same_as(&self, other: &Self) -> (r: bool)
        ensures
            r == (self.value() == other.value()),
    {
        self.0 == other.0
    }

    /// Whether this ID was minted strictly before `other`.
    pub fn precedes(&self, other: &Self) -> (r: bool)
        ensures
            r == (self.value() < other.value()),
    {
        self.0 < other.0
    }
}

/// Failure of the identifier service: the 64-bit counter is exhausted.
/// Fatal for the process; the core reports it and the host decides.
#[derive(Debug, Clone, Copy, PartialEq, Eq)]
pub enum IdError {
    IdentifierExhausted,
}

/// Mints `OpaqueID<T>` values for one tag `T`: a monotonic counter starting
/// above the reserved sentinel 0, together with the (ghost) sequence of all
/// values handed out so far, in mint order.
pub struct IdMinter<T> {
    last: u64,
    minted: Ghost<Seq<u64>>,
    tag: PhantomData<T>,
}

impl<T> IdMinter<T> {
    /// The last value handed out; 0 when nothing was minted yet.
    pub closed spec fn last_value(self) -> u64 {
        self.last
    }

    /// Every value handed out so far, in mint order.
    pub closed spec fn minted(self) -> Seq<u64> {
        self.minted@
    }

    /// The minting discipline: the history is strictly increasing and the
    /// counter dominates it, so no minted value can ever come back.
    pub open spec fn wf(self) -> bool {
        &&& forall|i: int, j: int|
            0 <= i < j < self.minted().len() ==> self.minted()[i] < self.minted()[j]
        &&& forall|i: int| 0 <= i < self.minted().len() ==> self.minted()[i] <= self.last_value()
        &&& self.minted().len() <= self.last_value()
    }

    /// A fresh minter whose first ID will be 1.
    pub fn new() -> (r: Self)
        ensures
            r.wf(),
            r.last_value() == 0,
            r.minted() == Seq::<u64>::empty(),
    {
        IdMinter { last: 0, minted: Ghost(Seq::empty()), tag: PhantomData }
    }

    /// A minter resuming above a persisted counter value, for a service
    /// that restarts over an existing store: every ID it mints is strictly
    /// greater than `last`, so nothing already stored is ever reissued.
    pub fn resume_after(last: u64) -> (r: Self)
        ensures
            r.wf(),
            r.last_value() == last,
            r.minted() == Seq::<u64>::empty(),
    {
        IdMinter { last, minted: Ghost(Seq::empty()), tag: PhantomData }
    }

    /// Whether `id` lies in the range this minter has already handed out,
    /// that is, whether it could only refer to something minted before the
    /// next call to `next`.
    pub fn has_minted(&self, id: &OpaqueID<T>) -> (r: bool)
        ensures
            r == (id.value() <= self.last_value()),
    {
        id.0 <= self.last
    }

    /// Mint the next ID: strictly greater than every ID this minter has
    /// returned before. Fails only when the 64-bit space is exhausted, and
    /// then changes nothing.
    pub fn next(&mut self) -> (r: Result<OpaqueID<T>, IdError>)
        requires
            old(self).wf(),
        ensures
            final(self).wf(),
            old(self).last_value() < u64::MAX ==> {
                &&& r is Ok
                &&& r->Ok_0.value() == old(self).last_value() + 1
                &&& final(self).last_value() == old(self).last_value() + 1
                &&& final(self).minted() == old(self).minted().push(r->Ok_0.value())
                &&& forall|i: int|
                    0 <= i < old(self).minted().len() ==> old(self).minted()[i]
                        < r->Ok_0.value()
            },
            old(self).last_value() == u64::MAX ==> {
                &&& r == Err::<OpaqueID<T>, IdError>(IdError::IdentifierExhausted)
                &&& final(self).last_value() == old(self).last_value()
                &&& final(self).minted() == old(self).minted()
            },
    {
        if self.last == u64::MAX {
            Err(IdError::IdentifierExhausted)
        } else {
            self.last = self.last + 1;
            proof {
                self.minted@ = self.minted@.push(self.last);
            }
            Ok(OpaqueID(self.last, PhantomData))
        }
    }
}

/// ID monotonicity: in any mint history kept by a well-formed minter the
/// values are pairwise distinct (as a set they number exactly the mints
/// made), and the order of the history (the mint linearization) agrees
/// with the numeric order of the values.
pub proof fn lemma_minted_ids_distinct<T>(m: IdMinter<T>)
    requires
        m.wf(),
    ensures
        forall|i: int, j: int|
            0 <= i < m.minted().len() && 0 <= j < m.minted().len() && i != j ==> m.minted()[i]
                != m.minted()[j],
        forall|i: int, j: int| 0 <= i < j < m.minted().len() ==> m.minted()[i] < m.minted()[j],
        m.minted().to_set().len() == m.minted().len(),
{
    assert(m.minted().no_duplicates());
    m.minted().unique_seq_to_set();
}

} // verus!
