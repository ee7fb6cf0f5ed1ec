use vstd::prelude::*;

use crate::h_mat::HMat;
use crate::row::Row;

verus! {

/// Marks a lookup that descends one level of a stack before resolving.
#[derive(Clone, Copy, Debug)]
pub struct AccessRowDirective<T>(pub T);

/// A stack whose row of element type `D` can be read by reference.
pub trait AccessRowRef<D, Directive>: Sized {
    /// The row of element type `D` in this stack.
    spec fn row_of(&self) -> Row<D>;

    /// Returns a reference to the `Row<D>`.
    fn get_row_ref(&self) -> (r: &Row<D>)
        ensures
            *r == self.row_of(),
    ;
}

/// A stack whose row of element type `D` can be borrowed mutably.
pub trait AccessRowMut<D, Directive>: Sized {
    /// The row of element type `D` in this stack.
    spec fn row_of_mut(&self) -> Row<D>;

    /// This stack with its row of element type `D` replaced by `row`, every
    /// other row kept.
    spec fn with_row(&self, row: Row<D>) -> Self;

    /// Reading back a replaced row gives the replacement.
    proof fn lemma_with_row(&self, row: Row<D>)
        ensures
            self.with_row(row).row_of_mut() == row,
    ;

    /// Returns a mutable reference to the `Row<D>`; whatever is left behind
    /// it becomes that row, and the other rows stay as they were.
    fn get_row_mut(&mut self) -> (r: &mut Row<D>)
        ensures
            *r == old(self).row_of_mut(),
            *final(self) == old(self).with_row(*final(r)),
    ;
}

impl<D, R> AccessRowRef<D, ()> for HMat<D, R> {
    open spec fn row_of(&self) -> Row<D> {
        self.head_row
    }

    fn get_row_ref(&self) -> (r: &Row<D>) {
        &self.head_row
    }
}

impl<T, R, D, A> AccessRowRef<D, AccessRowDirective<A>> for HMat<T, R> where
    R: AccessRowRef<D, A>,
 {
    open spec fn row_of(&self) -> Row<D> {
        self.rem.row_of()
    }

    fn get_row_ref(&self) -> (r: &Row<D>) {
        self.rem.get_row_ref()
    }
}

impl<D, R> AccessRowMut<D, ()> for HMat<D, R> {
    open spec fn row_of_mut(&self) -> Row<D> {
        self.head_row
    }

    open spec fn with_row(&self, row: Row<D>) -> Self {
        HMat { head_row: row, rem: self.rem }
    }

    proof fn lemma_with_row(&self, row: Row<D>) {
    }

    fn get_row_mut(&mut self) -> (r: &mut Row<D>) {
        &mut self.head_row
    }
}

impl<T, R, D, A> AccessRowMut<D, AccessRowDirective<A>> for HMat<T, R> where
    R: AccessRowMut<D, A>,
 {
    open spec fn row_of_mut(&self) -> Row<D> {
        self.rem.row_of_mut()
    }

    open spec fn with_row(&self, row: Row<D>) -> Self {
        HMat { head_row: self.head_row, rem: self.rem.with_row(row) }
    }

    proof fn lemma_with_row(&self, row: Row<D>) {
        self.rem.lemma_with_row(row);
    }

    fn get_row_mut(&mut self) -> (r: &mut Row<D>) {
        self.rem.get_row_mut()
    }
}

} // verus!
