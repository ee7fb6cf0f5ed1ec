use vstd::prelude::*;

use crate::access_col::{AccessColMut, AccessColRef, PlaceCol, TakeCol};
use crate::access_row::{AccessRowMut, AccessRowRef};
use crate::h_col::HCol;
use crate::h_mat_ref::HMatRef;
use crate::row::Row;
use crate::slicer::Slicer;
use crate::writer::{ApplyWriter, HMatWriter};

verus! {

/// A heterogeneous matrix: a stack of rows, each of a different element
/// type. `head_row` is the topmost row; `rem` is the rest of the stack,
/// either `()` or another `HMat`.
#[derive(Clone, Debug)]
pub struct HMat<T, R> {
    pub head_row: Row<T>,
    pub rem: R,
}

impl<T> HMat<T, ()> {
    /// Creates a matrix with a single, empty row of `T`.
    pub fn new() -> (r: Self)
        ensures
            r.head_row@ == Seq::<Option<T>>::empty(),
    {
        HMat { head_row: Row::default(), rem: () }
    }

    /// Creates a matrix with a single row of `T` holding the given slots.
    pub fn new_with(items: Vec<Option<T>>) -> (r: Self)
        ensures
            r.head_row@ == items@,
    {
        HMat { head_row: Row::from_iter(items), rem: () }
    }
}

impl<T, R> HMat<T, R> {
    /// Returns a reference to the `Row<D>` of this matrix.
    pub fn get_row_ref<D, Directive>(&self) -> (r: &Row<D>) where
        Self: AccessRowRef<D, Directive>,

        ensures
            *r == <Self as AccessRowRef<D, Directive>>::row_of(self),
    {
        AccessRowRef::<D, Directive>::get_row_ref(self)
    }

    /// Returns a mutable reference to the `Row<D>` of this matrix; the other
    /// rows stay as they were.
    pub fn get_row_mut<D, Directive>(&mut self) -> (r: &mut Row<D>) where
        Self: AccessRowMut<D, Directive>,

        ensures
            *r == <Self as AccessRowMut<D, Directive>>::row_of_mut(old(self)),
            *final(self) == <Self as AccessRowMut<D, Directive>>::with_row(old(self), *final(r)),
    {
        AccessRowMut::<D, Directive>::get_row_mut(self)
    }

    /// Returns the column at index `col_idx` as references.
    pub fn get_col_ref<'a>(&'a self, col_idx: usize) -> (c: HCol<
        &'a T,
        <Self as AccessColRef<'a, T>>::Rem,
    >) where Self: AccessColRef<'a, T>
        ensures
            self.is_col(col_idx as int, c),
    {
        AccessColRef::<'a, T>::get_col_ref(self, col_idx)
    }

    /// Returns the column at index `col_idx` as mutable references.
    pub fn get_col_mut<'a>(&'a mut self, col_idx: usize) -> (c: HCol<
        &'a mut T,
        <Self as AccessColMut<'a, T>>::Rem,
    >) where Self: AccessColMut<'a, T>
        ensures
            Self::is_col_mut(*old(self), col_idx as int, c, *final(self)),
            c.elem is Some ==> final(self).head_of() == old(self).head_of().update(
                col_idx as int,
                Some(*final(c.elem->0)),
            ),
    {
        AccessColMut::<'a, T>::get_col_mut(self, col_idx)
    }

    /// Removes and returns the column at index `col_idx`; its slots read as
    /// absent afterwards.
    pub fn take_col(&mut self, col_idx: usize) -> (c: HCol<T, <Self as TakeCol<T>>::Rem>) where
        Self: TakeCol<T>,

        ensures
            Self::takes(*old(self), col_idx as int, c, *final(self)),
    {
        TakeCol::<T>::take_col(self, col_idx)
    }

    /// Places the present values of `col` at index `col_idx`; slots whose
    /// value in `col` is absent are left untouched.
    pub fn place_col(&mut self, col_idx: usize, col: HCol<T, <Self as PlaceCol<T>>::Rem>) where
        Self: PlaceCol<T>,

        requires
            col_idx < usize::MAX,
        ensures
            Self::places(*old(self), col_idx as int, col, *final(self)),
    {
        PlaceCol::<T>::place_col(self, col_idx, col)
    }

    /// Returns a view of a selection of this matrix's rows, in the order
    /// that the view's type gives.
    pub fn slice<'a, D, Sr, Directive>(&'a self) -> (r: HMatRef<'a, D, Sr>) where
        HMatRef<'a, D, Sr>: Slicer<'a, Self, D, Directive>,

        ensures
            r.slices(self),
    {
        HMatRef::slice(self)
    }

    /// Runs the edits of writer `w` on this matrix.
    pub fn write_with<T1, R1, Directive>(&mut self, w: HMatWriter<T1, R1>) where
        Self: ApplyWriter<HMatWriter<T1, R1>, Directive>,

        requires
            <Self as ApplyWriter<HMatWriter<T1, R1>, Directive>>::admits(w),
        ensures
            <Self as ApplyWriter<HMatWriter<T1, R1>, Directive>>::applies(*old(self), w, *final(self)),
    {
        ApplyWriter::<HMatWriter<T1, R1>, Directive>::apply(self, w)
    }
}

/// A matrix that can grow by a new row on top.
pub trait Extend: Sized {
    type Old;

    /// `o` is this matrix, as it stands under a new row.
    spec fn is_old(&self, o: Self::Old) -> bool;

    /// Puts a new, empty row of type `E` on top of this matrix.
    fn extend<E>(self) -> (r: HMat<E, Self::Old>)
        ensures
            r.head_row@ == Seq::<Option<E>>::empty(),
            self.is_old(r.rem),
    ;

    /// Puts a new row of type `E`, holding the given slots, on top of this
    /// matrix.
    fn extend_with<E>(self, items: Vec<Option<E>>) -> (r: HMat<E, Self::Old>)
        ensures
            r.head_row@ == items@,
            self.is_old(r.rem),
    ;
}

impl<T, R> Extend for HMat<T, R> {
    type Old = HMat<T, R>;

    open spec fn is_old(&self, o: HMat<T, R>) -> bool {
        o == *self
    }

    fn extend<E>(self) -> (r: HMat<E, HMat<T, R>>) {
        HMat { head_row: Row::default(), rem: self }
    }

    fn extend_with<E>(self, items: Vec<Option<E>>) -> (r: HMat<E, HMat<T, R>>) {
        HMat { head_row: Row::from_iter(items), rem: self }
    }
}

} // verus!
