//! Fixed-size landmark sets indexed by a named anatomical scheme.

use std::marker::PhantomData;
use vstd::prelude::*;

verus! {

/// A named anatomical scheme: each value names one slot of a landmark set.
pub trait LandmarkIndex: Sized + Copy {
    /// The slot that this value names.
    spec fn spec_index(self) -> nat;

    /// How many slots the scheme has.
    spec fn spec_count() -> nat;

    /// Distinct values name distinct slots.
    proof fn lemma_index_injective(a: Self, b: Self)
        requires
            a.spec_index() == b.spec_index(),
        ensures
            a == b,
    ;

    /// The slot that this value names; always below the scheme's count.
    fn as_index(self) -> (r: usize)
        ensures
            r as nat == self.spec_index(),
            r < Self::spec_count(),
    ;

    /// How many slots the scheme has.
    fn count() -> (r: usize)
        ensures
            r as nat == Self::spec_count(),
    ;
}

/// Why a list of points could not become a landmark set.
#[derive(Debug, Clone, Copy, PartialEq, Eq, Structural)]
pub enum LandmarksError {
    /// The list does not hold exactly one point per slot of the scheme.
    IncorrectLength { expected: usize, actual: usize },
    /// The payload held no detection at all for the entity.
    NoKeyPoints,
}

/// One point per slot of the scheme `I`, in slot order.
///
/// The points are of any type `P`; the set never holds more or fewer
/// points than the scheme has slots, so indexing by a scheme value is total.
pub struct Landmarks<I: LandmarkIndex, P> {
    data: Vec<P>,
    scheme: PhantomData<I>,
}

impl<I: LandmarkIndex, P> View for Landmarks<I, P> {
    type V = Seq<P>;

    closed spec fn view(&self) -> Seq<P> {
        self.data@
    }
}

impl<I: LandmarkIndex, P> Landmarks<I, P> {
    #[verifier::type_invariant]
    spec fn one_point_per_slot(self) -> bool {
        self.data@.len() == I::spec_count()
    }

    /// Takes the points as the set's slots, in order; fails unless there is
    /// exactly one point per slot.
    pub fn try_from(points: Vec<P>) -> (r: Result<Self, LandmarksError>)
        ensures
            r is Ok <==> points@.len() == I::spec_count(),
            r matches Ok(s) ==> s@ == points@,
            r matches Err(e) ==> e == (LandmarksError::IncorrectLength {
                expected: I::spec_count() as usize,
                actual: points@.len() as usize,
            }),
    {
        let expected = I::count();
        if points.len() != expected {
            return Err(LandmarksError::IncorrectLength { expected, actual: points.len() });
        }
        Ok(Landmarks { data: points, scheme: PhantomData })
    }

    /// The point in the slot that `i` names.
    pub fn index(&self, i: I) -> (r: &P)
        ensures
            *r == self@[i.spec_index() as int],
    {
        proof {
            use_type_invariant(self);
        }
        &self.data[i.as_index()]
    }

    /// The points in slot order.
    pub fn points(&self) -> (r: &Vec<P>)
        ensures
            r@ == self@,
            r@.len() == I::spec_count(),
    {
        proof {
            use_type_invariant(self);
        }
        &self.data
    }

    /// The set whose point in each slot is `f` applied to the points of
    /// `self` and `other` in that slot.
    pub fn zip_with<F: Fn(&P, &P) -> P>(&self, other: &Self, f: F) -> (r: Self)
        requires
            forall|a: &P, b: &P| f.requires((a, b)),
        ensures
            r@.len() == I::spec_count(),
            self@.len() == I::spec_count(),
            other@.len() == I::spec_count(),
            forall|k: int| 0 <= k < r@.len() ==> f.ensures((&self@[k], &other@[k]), #[trigger] r@[k]),
    {
        proof {
            use_type_invariant(self);
            use_type_invariant(other);
        }
        let n = self.data.len();
        let mut out: Vec<P> = Vec::with_capacity(n);
        let mut k: usize = 0;
        while k < n
            invariant
                n == self.data@.len(),
                n == other.data@.len(),
                k <= n,
                out@.len() == k,
                forall|a: &P, b: &P| f.requires((a, b)),
                forall|j: int| 0 <= j < k ==> f.ensures((&self.data@[j], &other.data@[j]), #[trigger] out@[j]),
            decreases n - k,
        {
            let v = f(&self.data[k], &other.data[k]);
            out.push(v);
            k = k + 1;
        }
        Landmarks { data: out, scheme: PhantomData }
    }

    /// The set whose point in each slot is `f` applied to the point of
    /// `self` in that slot.
    pub fn map<F: Fn(&P) -> P>(&self, f: F) -> (r: Self)
        requires
            forall|a: &P| f.requires((a,)),
        ensures
            r@.len() == I::spec_count(),
            self@.len() == I::spec_count(),
            forall|k: int| 0 <= k < r@.len() ==> f.ensures((&self@[k],), #[trigger] r@[k]),
    {
        proof {
            use_type_invariant(self);
        }
        let n = self.data.len();
        let mut out: Vec<P> = Vec::with_capacity(n);
        let mut k: usize = 0;
        while k < n
            invariant
                n == self.data@.len(),
                k <= n,
                out@.len() == k,
                forall|a: &P| f.requires((a,)),
                forall|j: int| 0 <= j < k ==> f.ensures((&self.data@[j],), #[trigger] out@[j]),
            decreases n - k,
        {
            let v = f(&self.data[k]);
            out.push(v);
            k = k + 1;
        }
        Landmarks { data: out, scheme: PhantomData }
    }
}

} // verus!
