use vstd::prelude::*;

use crate::access_col::AccessColRef;
use crate::h_col::HCol;
use crate::h_mat::HMat;
use crate::h_mat_ref::HMatRef;

verus! {

/// A cursor over the columns `0..num_cols` of a stack `H`, handing out one
/// column per call of `next`. It does not restart: build a new one to go
/// over the columns again.
pub struct HColIter<'a, H> {
    mat_ref: &'a H,
    curr_col_idx: usize,
    num_cols: usize,
}

impl<'a, H> HColIter<'a, H> {
    /// The stack whose columns are handed out.
    pub closed spec fn source(&self) -> H {
        *self.mat_ref
    }

    /// The index of the next column to hand out.
    pub closed spec fn cursor(&self) -> nat {
        self.curr_col_idx as nat
    }

    /// One past the last column to hand out.
    pub closed spec fn end(&self) -> nat {
        self.num_cols as nat
    }

    /// Starts at column 0 of `mat_ref` and stops before `num_cols`.
    fn new(mat_ref: &'a H, num_cols: usize) -> (r: Self)
        ensures
            r.source() == *mat_ref,
            r.cursor() == 0,
            r.end() == num_cols,
    {
        HColIter { mat_ref, curr_col_idx: 0, num_cols }
    }

    /// Advances the cursor; the column at the old cursor when it was before
    /// the end, nothing once the end is reached.
    pub fn next<T>(&mut self) -> (r: Option<HCol<&'a T, <H as AccessColRef<'a, T>>::Rem>>) where
        H: AccessColRef<'a, T>,

        ensures
            final(self).source() == old(self).source(),
            final(self).end() == old(self).end(),
            old(self).cursor() < old(self).end() ==> {
                &&& r is Some
                &&& old(self).source().is_col(old(self).cursor() as int, r->0)
                &&& final(self).cursor() == old(self).cursor() + 1
            },
            old(self).cursor() >= old(self).end() ==> {
                &&& r is None
                &&& final(self).cursor() == old(self).cursor()
            },
    {
        let col_idx = self.curr_col_idx;
        if col_idx >= self.num_cols {
            return None;
        }
        self.curr_col_idx = col_idx + 1;
        let col = self.mat_ref.get_col_ref(col_idx);
        Some(col)
    }
}

impl<'a, T, R> HMatRef<'a, T, R> {
    /// Returns a cursor over the columns `0..num_cols` of this view.
    pub fn iter(&'a self, num_cols: usize) -> (r: HColIter<'a, Self>) where
        Self: AccessColRef<'a, T>,

        ensures
            r.source() == *self,
            r.cursor() == 0,
            r.end() == num_cols,
    {
        HColIter::new(self, num_cols)
    }
}

impl<T, R> HMat<T, R> {
    /// Returns a cursor over the columns `0..num_cols` of this matrix.
    pub fn iter<'a>(&'a self, num_cols: usize) -> (r: HColIter<'a, Self>) where
        Self: AccessColRef<'a, T>,

        ensures
            r.source() == *self,
            r.cursor() == 0,
            r.end() == num_cols,
    {
        HColIter::new(self, num_cols)
    }
}

} // verus!
